//! Per-file code analysis for reviews: the declarations of a file, a
//! keyword-based complexity measure, and a cache of analysed files with a
//! project-wide report.

use vstd::prelude::*;
use crate::keyed::{has_key, keyed_map, keys_distinct, lemma_keyed_at, lemma_keyed_empty, lemma_keyed_push};
use crate::tallies::{string_tally_view, tally, tally_strings};
use crate::text::{
    chars_of, copy_string, copy_strings, count_from, count_matches, count_occurrences, extend_str,
    lines_of, lowercase_of, opt_string_view, split_lines, string_views, strs_eq, to_lowercase,
};
use crate::tree_sitter_analyzer::simple_diff::{detect_language_from_path, path_language};

verus! {

// ---------------------------------------------------------------------------
// Declarations found in a file
// ---------------------------------------------------------------------------

/// A function of an analysed file.
#[derive(Debug)]
pub struct CodeFunction {
    pub name: String,
    pub start_line: usize,
    pub end_line: usize,
    /// Keyword-based complexity (see `calculate_complexity`).
    pub complexity: u32,
    pub parameters: Vec<String>,
}

/// The abstract value of a function.
pub struct CodeFunctionModel {
    pub name: Seq<char>,
    pub start_line: usize,
    pub end_line: usize,
    pub complexity: u32,
    pub parameters: Seq<Seq<char>>,
}

impl View for CodeFunction {
    type V = CodeFunctionModel;

    open spec fn view(&self) -> CodeFunctionModel {
        CodeFunctionModel {
            name: self.name@,
            start_line: self.start_line,
            end_line: self.end_line,
            complexity: self.complexity,
            parameters: string_views(self.parameters@),
        }
    }
}

impl Clone for CodeFunction {
    fn clone(&self) -> (res: Self)
        ensures
            res@ == self@,
    {
        CodeFunction {
            name: copy_string(&self.name),
            start_line: self.start_line,
            end_line: self.end_line,
            complexity: self.complexity,
            parameters: copy_strings(&self.parameters),
        }
    }
}

/// A class (or struct) of an analysed file.
#[derive(Debug)]
pub struct CodeClass {
    pub name: String,
    pub start_line: usize,
    pub end_line: usize,
    /// Number of methods.
    pub methods: usize,
    /// Number of fields.
    pub fields: usize,
}

/// The abstract value of a class.
pub struct CodeClassModel {
    pub name: Seq<char>,
    pub start_line: usize,
    pub end_line: usize,
    pub methods: usize,
    pub fields: usize,
}

impl View for CodeClass {
    type V = CodeClassModel;

    open spec fn view(&self) -> CodeClassModel {
        CodeClassModel {
            name: self.name@,
            start_line: self.start_line,
            end_line: self.end_line,
            methods: self.methods,
            fields: self.fields,
        }
    }
}

impl Clone for CodeClass {
    fn clone(&self) -> (res: Self)
        ensures
            res@ == self@,
    {
        CodeClass {
            name: copy_string(&self.name),
            start_line: self.start_line,
            end_line: self.end_line,
            methods: self.methods,
            fields: self.fields,
        }
    }
}

/// An import of an analysed file.
#[derive(Debug)]
pub struct CodeImport {
    pub module: String,
    pub start_line: usize,
    /// Whether the module path is relative (starts with `.`).
    pub is_relative: bool,
}

/// The abstract value of an import.
pub struct CodeImportModel {
    pub module: Seq<char>,
    pub start_line: usize,
    pub is_relative: bool,
}

impl View for CodeImport {
    type V = CodeImportModel;

    open spec fn view(&self) -> CodeImportModel {
        CodeImportModel {
            module: self.module@,
            start_line: self.start_line,
            is_relative: self.is_relative,
        }
    }
}

impl Clone for CodeImport {
    fn clone(&self) -> (res: Self)
        ensures
            res@ == self@,
    {
        CodeImport {
            module: copy_string(&self.module),
            start_line: self.start_line,
            is_relative: self.is_relative,
        }
    }
}

/// The views of a sequence of functions.
pub open spec fn function_views(v: Seq<CodeFunction>) -> Seq<CodeFunctionModel> {
    v.map_values(|f: CodeFunction| f@)
}

/// The views of a sequence of classes.
pub open spec fn class_views(v: Seq<CodeClass>) -> Seq<CodeClassModel> {
    v.map_values(|c: CodeClass| c@)
}

/// The views of a sequence of imports.
pub open spec fn import_views(v: Seq<CodeImport>) -> Seq<CodeImportModel> {
    v.map_values(|i: CodeImport| i@)
}

/// Copies a vector of values that have a view-preserving `clone`.
fn copy_functions(v: &Vec<CodeFunction>) -> (res: Vec<CodeFunction>)
    ensures
        function_views(res@) == function_views(v@),
{
    let mut res: Vec<CodeFunction> = Vec::new();
    let mut i: usize = 0;
    while i < v.len()
        invariant
            i <= v@.len(),
            function_views(res@) == function_views(v@).take(i as int),
        decreases v.len() - i,
    {
        let ghost before = function_views(res@);
        let f = v[i].clone();
        let ghost fv = f@;
        res.push(f);
        assert(function_views(res@) =~= before.push(fv));
        assert(function_views(v@)[i as int] == fv);
        assert(function_views(res@) =~= function_views(v@).take(i + 1));
        i = i + 1;
    }
    assert(function_views(v@).take(i as int) =~= function_views(v@));
    res
}

/// Copies a vector of classes.
fn copy_classes(v: &Vec<CodeClass>) -> (res: Vec<CodeClass>)
    ensures
        class_views(res@) == class_views(v@),
{
    let mut res: Vec<CodeClass> = Vec::new();
    let mut i: usize = 0;
    while i < v.len()
        invariant
            i <= v@.len(),
            class_views(res@) == class_views(v@).take(i as int),
        decreases v.len() - i,
    {
        let ghost before = class_views(res@);
        let c = v[i].clone();
        let ghost cv = c@;
        res.push(c);
        assert(class_views(res@) =~= before.push(cv));
        assert(class_views(v@)[i as int] == cv);
        assert(class_views(res@) =~= class_views(v@).take(i + 1));
        i = i + 1;
    }
    assert(class_views(v@).take(i as int) =~= class_views(v@));
    res
}

/// Copies a vector of imports.
fn copy_imports(v: &Vec<CodeImport>) -> (res: Vec<CodeImport>)
    ensures
        import_views(res@) == import_views(v@),
{
    let mut res: Vec<CodeImport> = Vec::new();
    let mut i: usize = 0;
    while i < v.len()
        invariant
            i <= v@.len(),
            import_views(res@) == import_views(v@).take(i as int),
        decreases v.len() - i,
    {
        let ghost before = import_views(res@);
        let c = v[i].clone();
        let ghost cv = c@;
        res.push(c);
        assert(import_views(res@) =~= before.push(cv));
        assert(import_views(v@)[i as int] == cv);
        assert(import_views(res@) =~= import_views(v@).take(i + 1));
        i = i + 1;
    }
    assert(import_views(v@).take(i as int) =~= import_views(v@));
    res
}

/// The analysis of one source file.
#[derive(Debug)]
pub struct FileAnalysis {
    pub path: String,
    pub language: String,
    pub functions: Vec<CodeFunction>,
    pub classes: Vec<CodeClass>,
    pub imports: Vec<CodeImport>,
    /// Number of lines of the file.
    pub loc: usize,
    /// Sum of the complexities of the functions.
    pub complexity_score: u32,
}

/// The abstract value of a file analysis.
pub struct FileAnalysisModel {
    pub path: Seq<char>,
    pub language: Seq<char>,
    pub functions: Seq<CodeFunctionModel>,
    pub classes: Seq<CodeClassModel>,
    pub imports: Seq<CodeImportModel>,
    pub loc: usize,
    pub complexity_score: u32,
}

impl View for FileAnalysis {
    type V = FileAnalysisModel;

    open spec fn view(&self) -> FileAnalysisModel {
        FileAnalysisModel {
            path: self.path@,
            language: self.language@,
            functions: function_views(self.functions@),
            classes: class_views(self.classes@),
            imports: import_views(self.imports@),
            loc: self.loc,
            complexity_score: self.complexity_score,
        }
    }
}

impl Clone for FileAnalysis {
    fn clone(&self) -> (res: Self)
        ensures
            res@ == self@,
    {
        FileAnalysis {
            path: copy_string(&self.path),
            language: copy_string(&self.language),
            functions: copy_functions(&self.functions),
            classes: copy_classes(&self.classes),
            imports: copy_imports(&self.imports),
            loc: self.loc,
            complexity_score: self.complexity_score,
        }
    }
}

// ---------------------------------------------------------------------------
// Complexity
// ---------------------------------------------------------------------------

/// The branching keywords counted for a language.
pub open spec fn branch_keywords(language: Seq<char>) -> Seq<Seq<char>> {
    if language == "rust"@ {
        seq!["if"@, "else"@, "match"@, "while"@, "for"@, "loop"@]
    } else if language == "python"@ {
        seq!["if"@, "elif"@, "else"@, "for"@, "while"@, "try"@, "except"@]
    } else if language == "java"@ || language == "javascript"@ || language == "typescript"@
        || language == "c"@ || language == "cpp"@ {
        seq!["if"@, "else"@, "switch"@, "case"@, "for"@, "while"@, "do"@, "try"@, "catch"@]
    } else if language == "go"@ {
        seq!["if"@, "else"@, "switch"@, "case"@, "for"@, "select"@]
    } else {
        seq!["if"@, "else"@, "switch"@, "for"@, "while"@]
    }
}

/// A keyword with a space on each side.
pub open spec fn spaced(k: Seq<char>) -> Seq<char> {
    seq![' '] + k + seq![' ']
}

/// The number of occurrences, each keyword counted on its own, of the
/// space-delimited keywords in the code.
pub open spec fn keyword_total(code: Seq<char>, kws: Seq<Seq<char>>) -> nat
    decreases kws.len(),
{
    if kws.len() == 0 {
        0
    } else {
        keyword_total(code, kws.drop_last()) + count_matches(code, spaced(kws.last()))
    }
}

/// The complexity of a piece of code: one, plus one for each
/// non-overlapping occurrence of a branching keyword of the language
/// between two spaces.
pub open spec fn code_complexity(code: Seq<char>, language: Seq<char>) -> nat {
    1 + keyword_total(code, branch_keywords(language))
}

/// Counting fewer keywords never counts more.
proof fn lemma_keyword_total_prefix(code: Seq<char>, kws: Seq<Seq<char>>, i: int)
    requires
        0 <= i <= kws.len(),
    ensures
        keyword_total(code, kws.take(i)) <= keyword_total(code, kws),
    decreases kws.len() - i,
{
    if i < kws.len() {
        lemma_keyword_total_prefix(code, kws, i + 1);
        assert(kws.take(i + 1).drop_last() =~= kws.take(i));
    } else {
        assert(kws.take(i) =~= kws);
    }
}

/// The branching keywords of a language.
fn branch_keywords_of(language: &str) -> (res: Vec<&'static str>)
    ensures
        res@.map_values(|k: &str| k@) == branch_keywords(language@),
{
    let res = if strs_eq(language, "rust") {
        vec!["if", "else", "match", "while", "for", "loop"]
    } else if strs_eq(language, "python") {
        vec!["if", "elif", "else", "for", "while", "try", "except"]
    } else if strs_eq(language, "java") || strs_eq(language, "javascript") || strs_eq(
        language,
        "typescript",
    ) || strs_eq(language, "c") || strs_eq(language, "cpp") {
        vec!["if", "else", "switch", "case", "for", "while", "do", "try", "catch"]
    } else if strs_eq(language, "go") {
        vec!["if", "else", "switch", "case", "for", "select"]
    } else {
        vec!["if", "else", "switch", "for", "while"]
    };
    assert(res@.map_values(|k: &str| k@) =~= branch_keywords(language@));
    res
}

/// The complexity of a piece of code in the given language (see
/// `code_complexity`).
pub fn calculate_complexity(code: &str, language: &str) -> (res: u32)
    requires
        code_complexity(code@, language@) <= u32::MAX,
    ensures
        res == code_complexity(code@, language@),
{
    let kws = branch_keywords_of(language);
    let ghost ks = kws@.map_values(|k: &str| k@);
    let cv = chars_of(code);
    let mut complexity: u32 = 1;
    let mut i: usize = 0;
    while i < kws.len()
        invariant
            i <= kws@.len(),
            ks == kws@.map_values(|k: &str| k@),
            ks == branch_keywords(language@),
            cv@ == code@,
            1 + keyword_total(code@, ks) <= u32::MAX,
            complexity == 1 + keyword_total(code@, ks.take(i as int)),
        decreases kws.len() - i,
    {
        let mut pat: Vec<char> = Vec::new();
        pat.push(' ');
        extend_str(&mut pat, kws[i]);
        pat.push(' ');
        assert(pat@ =~= spaced(ks[i as int]));
        let count = count_occurrences(cv.as_slice(), pat.as_slice());
        proof {
            assert(ks.take(i + 1).drop_last() =~= ks.take(i as int));
            lemma_keyword_total_prefix(code@, ks, i + 1);
        }
        complexity = complexity + count as u32;
        i = i + 1;
    }
    assert(ks.take(i as int) =~= ks);
    complexity
}

/// The sum of the complexities of the functions.
pub open spec fn total_complexity(fs: Seq<CodeFunctionModel>) -> nat
    decreases fs.len(),
{
    if fs.len() == 0 {
        0
    } else {
        total_complexity(fs.drop_last()) + (fs.last().complexity as nat)
    }
}

/// A prefix of the functions has no more complexity than all of them.
proof fn lemma_total_complexity_prefix(fs: Seq<CodeFunctionModel>, i: int)
    requires
        0 <= i <= fs.len(),
    ensures
        total_complexity(fs.take(i)) <= total_complexity(fs),
    decreases fs.len() - i,
{
    if i < fs.len() {
        lemma_total_complexity_prefix(fs, i + 1);
        assert(fs.take(i + 1).drop_last() =~= fs.take(i));
    } else {
        assert(fs.take(i) =~= fs);
    }
}

/// The complexity of a file: the sum of those of its functions.
pub fn calculate_file_complexity(functions: &[CodeFunction]) -> (res: u32)
    requires
        total_complexity(functions@.map_values(|f: CodeFunction| f@)) <= u32::MAX,
    ensures
        res == total_complexity(functions@.map_values(|f: CodeFunction| f@)),
{
    let ghost fs = functions@.map_values(|f: CodeFunction| f@);
    let mut total: u32 = 0;
    let mut i: usize = 0;
    while i < functions.len()
        invariant
            i <= functions@.len(),
            fs == functions@.map_values(|f: CodeFunction| f@),
            total_complexity(fs) <= u32::MAX,
            total == total_complexity(fs.take(i as int)),
        decreases functions.len() - i,
    {
        proof {
            assert(fs.take(i + 1).drop_last() =~= fs.take(i as int));
            lemma_total_complexity_prefix(fs, i + 1);
        }
        total = total + functions[i].complexity;
        i = i + 1;
    }
    assert(fs.take(i as int) =~= fs);
    total
}

// ---------------------------------------------------------------------------
// Building a file analysis from the declarations a parser found
// ---------------------------------------------------------------------------

/// A function as a parser reports it: its span, its text and its parameters.
#[derive(Debug)]
pub struct ParsedFunction {
    pub name: String,
    pub start_line: usize,
    pub end_line: usize,
    pub content: String,
    pub parameters: Vec<String>,
}

/// A class as a parser reports it: its span and how many methods and
/// fields it has.
#[derive(Debug)]
pub struct ParsedClass {
    pub name: String,
    pub start_line: usize,
    pub end_line: usize,
    pub method_count: usize,
    pub field_count: usize,
}

/// An import as a parser reports it.
#[derive(Debug)]
pub struct ParsedImport {
    pub module: String,
    pub start_line: usize,
}

/// The record of a parsed function, with its complexity.
pub open spec fn function_record(f: ParsedFunction, language: Seq<char>) -> CodeFunctionModel {
    CodeFunctionModel {
        name: f.name@,
        start_line: f.start_line,
        end_line: f.end_line,
        complexity: code_complexity(f.content@, language) as u32,
        parameters: string_views(f.parameters@),
    }
}

/// The record of a parsed class.
pub open spec fn class_record(c: ParsedClass) -> CodeClassModel {
    CodeClassModel {
        name: c.name@,
        start_line: c.start_line,
        end_line: c.end_line,
        methods: c.method_count,
        fields: c.field_count,
    }
}

/// Whether a module path is relative: it starts with a dot.
pub open spec fn is_relative_module(m: Seq<char>) -> bool {
    m.len() > 0 && m[0] == '.'
}

/// The record of a parsed import.
pub open spec fn import_record(i: ParsedImport) -> CodeImportModel {
    CodeImportModel {
        module: i.module@,
        start_line: i.start_line,
        is_relative: is_relative_module(i.module@),
    }
}

/// The records of the parsed functions.
pub open spec fn function_records(fs: Seq<ParsedFunction>, language: Seq<char>) -> Seq<
    CodeFunctionModel,
> {
    fs.map_values(|f: ParsedFunction| function_record(f, language))
}

/// Whether every function's complexity, and the file's, fit in a `u32`.
pub open spec fn complexities_fit(fs: Seq<ParsedFunction>, language: Seq<char>) -> bool {
    &&& forall|i: int| 0 <= i < fs.len() ==> code_complexity((#[trigger] fs[i]).content@, language) <= u32::MAX
    &&& total_complexity(function_records(fs, language)) <= u32::MAX
}

/// The analysis of a file with the given declarations.
pub open spec fn assembled_analysis(
    path: Seq<char>,
    content: Seq<char>,
    language: Seq<char>,
    fs: Seq<ParsedFunction>,
    cs: Seq<ParsedClass>,
    is: Seq<ParsedImport>,
) -> FileAnalysisModel {
    FileAnalysisModel {
        path,
        language,
        functions: function_records(fs, language),
        classes: cs.map_values(|c: ParsedClass| class_record(c)),
        imports: is.map_values(|i: ParsedImport| import_record(i)),
        loc: lines_of(content).len() as usize,
        complexity_score: total_complexity(function_records(fs, language)) as u32,
    }
}

/// Builds the analysis of a file from the declarations a parser found in
/// it: each function gets its complexity, each import whether it is
/// relative, and the file its line count and total complexity.
pub fn assemble_file_analysis(
    file_path: &str,
    content: &str,
    language: &str,
    functions: &[ParsedFunction],
    classes: &[ParsedClass],
    imports: &[ParsedImport],
) -> (res: FileAnalysis)
    requires
        complexities_fit(functions@, language@),
    ensures
        res@ == assembled_analysis(file_path@, content@, language@, functions@, classes@, imports@),
{
    let ghost frs = function_records(functions@, language@);
    let mut fv: Vec<CodeFunction> = Vec::new();
    let mut i: usize = 0;
    while i < functions.len()
        invariant
            i <= functions@.len(),
            complexities_fit(functions@, language@),
            frs == function_records(functions@, language@),
            function_views(fv@) == frs.take(i as int),
        decreases functions.len() - i,
    {
        let f = &functions[i];
        assert(code_complexity(functions@[i as int].content@, language@) <= u32::MAX);
        let c = CodeFunction {
            name: copy_string(&f.name),
            start_line: f.start_line,
            end_line: f.end_line,
            complexity: calculate_complexity(f.content.as_str(), language),
            parameters: copy_strings(&f.parameters),
        };
        let ghost before = function_views(fv@);
        let ghost cv = c@;
        fv.push(c);
        assert(function_views(fv@) =~= before.push(cv));
        assert(frs.take(i + 1) =~= frs.take(i as int).push(frs[i as int]));
        i = i + 1;
    }
    assert(frs.take(i as int) =~= frs);
    let ghost crs = classes@.map_values(|c: ParsedClass| class_record(c));
    let mut cv: Vec<CodeClass> = Vec::new();
    let mut j: usize = 0;
    while j < classes.len()
        invariant
            j <= classes@.len(),
            crs == classes@.map_values(|c: ParsedClass| class_record(c)),
            class_views(cv@) == crs.take(j as int),
        decreases classes.len() - j,
    {
        let c = &classes[j];
        let r = CodeClass {
            name: copy_string(&c.name),
            start_line: c.start_line,
            end_line: c.end_line,
            methods: c.method_count,
            fields: c.field_count,
        };
        let ghost before = class_views(cv@);
        let ghost rv = r@;
        cv.push(r);
        assert(class_views(cv@) =~= before.push(rv));
        assert(crs.take(j + 1) =~= crs.take(j as int).push(crs[j as int]));
        j = j + 1;
    }
    assert(crs.take(j as int) =~= crs);
    let ghost irs = imports@.map_values(|i: ParsedImport| import_record(i));
    let mut iv: Vec<CodeImport> = Vec::new();
    let mut k: usize = 0;
    while k < imports.len()
        invariant
            k <= imports@.len(),
            irs == imports@.map_values(|i: ParsedImport| import_record(i)),
            import_views(iv@) == irs.take(k as int),
        decreases imports.len() - k,
    {
        let m = &imports[k];
        let mv = chars_of(m.module.as_str());
        let rel = mv.len() > 0 && mv[0] == '.';
        let r = CodeImport { module: copy_string(&m.module), start_line: m.start_line, is_relative: rel };
        let ghost before = import_views(iv@);
        let ghost rv = r@;
        iv.push(r);
        assert(import_views(iv@) =~= before.push(rv));
        assert(irs.take(k + 1) =~= irs.take(k as int).push(irs[k as int]));
        k = k + 1;
    }
    assert(irs.take(k as int) =~= irs);
    let cc = chars_of(content);
    let lines = split_lines(cc.as_slice());
    let score = calculate_file_complexity(fv.as_slice());
    assert(fv@.map_values(|f: CodeFunction| f@) =~= function_views(fv@));
    FileAnalysis {
        path: file_path.to_string(),
        language: language.to_string(),
        functions: fv,
        classes: cv,
        imports: iv,
        loc: lines.len(),
        complexity_score: score,
    }
}

// ---------------------------------------------------------------------------
// Analysers
// ---------------------------------------------------------------------------

/// Whether `s` is one of the strings of `v`.
fn strings_contain(v: &Vec<String>, s: &str) -> (res: bool)
    ensures
        res == string_views(v@).contains(s@),
{
    let mut i: usize = 0;
    while i < v.len()
        invariant
            i <= v@.len(),
            forall|j: int| 0 <= j < i ==> v@[j]@ != s@,
        decreases v.len() - i,
    {
        if strs_eq(v[i].as_str(), s) {
            assert(string_views(v@)[i as int] == s@);
            return true;
        }
        i = i + 1;
    }
    assert(!string_views(v@).contains(s@)) by {
        assert forall|j: int| 0 <= j < string_views(v@).len() implies string_views(v@)[j] != s@ by {
            assert(v@[j]@ != s@);
        }
    }
    false
}

/// The language of a file by its extension, compared without regard to
/// case (see `path_language`); none for an unknown extension.
pub fn detect_file_language(file_path: &str) -> (res: Option<String>)
    ensures
        opt_string_view(res) == path_language(file_path@),
{
    detect_language_from_path(file_path)
}

/// Whether a language, named in any case, is among the given lower-case
/// language names.
pub fn language_listed(languages: &Vec<String>, language: &str) -> (res: bool)
    ensures
        res == string_views(languages@).contains(lowercase_of(language@)),
{
    let lower = to_lowercase(language);
    strings_contain(languages, lower.as_str())
}

/// A code analyser: turns the text of a file into its declarations. Its
/// users supply the implementation.
pub trait CodeAnalyzer {
    /// Analyses one file.
    fn analyze_file(&self, file_path: &str, content: &str) -> Result<FileAnalysis, String>;

    /// The languages the analyser handles, in lower case.
    fn supported_languages(&self) -> Vec<String>;

    /// Whether the analyser handles a language, named in any case (see
    /// `language_listed`): by default, whether its lower-cased name is among
    /// what `supported_languages` gives.
    fn supports_language(&self, language: &str) -> (res: bool)
        default_ensures
            exists|v: Vec<String>|
                call_ensures(Self::supported_languages, (self,), v) && res == string_views(v@).contains(
                    lowercase_of(language@),
                ),
    {
        let langs = self.supported_languages();
        assert(call_ensures(Self::supported_languages, (self,), langs));
        language_listed(&langs, language)
    }
}

/// The cache of a project analyser as keyed entries.
pub open spec fn cache_entries(v: Seq<(String, FileAnalysis)>) -> Seq<(Seq<char>, FileAnalysisModel)> {
    v.map_values(|e: (String, FileAnalysis)| (e.0@, e.1@))
}

/// Analyses the files of a project once each, keeping each analysis.
pub struct ProjectAnalyzer<A: CodeAnalyzer> {
    code_analyzer: A,
    work_dir: String,
    /// Each analysed path with its analysis, in the order of analysis; no
    /// path occurs twice.
    cache: Vec<(String, FileAnalysis)>,
}

/// The position of the cached entry of `path`, if there is one.
fn find_entry(cache: &Vec<(String, FileAnalysis)>, path: &str) -> (res: Option<usize>)
    ensures
        match res {
            Some(i) => i < cache@.len() && cache@[i as int].0@ == path@,
            None => !has_key(cache_entries(cache@), path@),
        },
{
    let mut i: usize = 0;
    while i < cache.len()
        invariant
            i <= cache@.len(),
            forall|j: int| 0 <= j < i ==> cache@[j].0@ != path@,
        decreases cache.len() - i,
    {
        if strs_eq(cache[i].0.as_str(), path) {
            return Some(i);
        }
        i = i + 1;
    }
    assert forall|j: int| 0 <= j < cache_entries(cache@).len() implies (#[trigger] cache_entries(
        cache@,
    )[j]).0 != path@ by {
        assert(cache@[j].0@ != path@);
    }
    None
}

impl<A: CodeAnalyzer> ProjectAnalyzer<A> {
    #[verifier::type_invariant]
    spec fn inv(self) -> bool {
        keys_distinct(cache_entries(self.cache@))
    }

    /// The analysed files with their analyses, in the order in which they
    /// were first analysed.
    pub closed spec fn entries(self) -> Seq<(Seq<char>, FileAnalysisModel)> {
        cache_entries(self.cache@)
    }

    /// The analysis of each analysed file.
    pub open spec fn cached(self) -> Map<Seq<char>, FileAnalysisModel> {
        keyed_map(self.entries())
    }

    /// The analyser used for files not analysed yet.
    pub closed spec fn analyzer(self) -> A {
        self.code_analyzer
    }

    /// The project's directory.
    pub closed spec fn work_dir(self) -> Seq<char> {
        self.work_dir@
    }

    /// An analyser that has analysed nothing yet.
    pub fn new(code_analyzer: A, work_dir: String) -> (res: Self)
        ensures
            res.entries() == Seq::<(Seq<char>, FileAnalysisModel)>::empty(),
            res.cached() == Map::<Seq<char>, FileAnalysisModel>::empty(),
            res.analyzer() == code_analyzer,
            res.work_dir() == work_dir@,
    {
        let res = ProjectAnalyzer { code_analyzer, work_dir, cache: Vec::new() };
        proof {
            lemma_keyed_empty(cache_entries(res.cache@));
        }
        res
    }

    /// The analysis of a file: the kept one if the file was analysed
    /// before, else the one the analyser gives for this path and content,
    /// which is then kept. The
    /// analyser's error is returned as it is, and nothing is kept then.
    pub fn analyze_project_file(&mut self, relative_path: &str, content: &str) -> (res: Result<
        &FileAnalysis,
        String,
    >)
        ensures
            final(self).analyzer() == old(self).analyzer(),
            final(self).work_dir() == old(self).work_dir(),
            keys_distinct(final(self).entries()),
            old(self).cached().contains_key(relative_path@) ==> (res matches Ok(a) && a@ == old(
                self,
            ).cached()[relative_path@] && final(self).entries() == old(self).entries()),
            !old(self).cached().contains_key(relative_path@) ==> match res {
                Ok(a) => final(self).entries() == old(self).entries().push((relative_path@, a@))
                    && final(self).cached() == old(self).cached().insert(relative_path@, a@),
                Err(_) => final(self).entries() == old(self).entries(),
            },
            !old(self).cached().contains_key(relative_path@) ==> match res {
                Ok(a) => call_ensures(
                    A::analyze_file,
                    (&old(self).analyzer(), relative_path, content),
                    Ok::<FileAnalysis, String>(*a),
                ),
                Err(e) => call_ensures(
                    A::analyze_file,
                    (&old(self).analyzer(), relative_path, content),
                    Err::<FileAnalysis, String>(e),
                ),
            },
    {
        proof {
            use_type_invariant(&*self);
        }
        let found = find_entry(&self.cache, relative_path);
        match found {
            Some(i) => {
                proof {
                    lemma_keyed_at(cache_entries(self.cache@), i as int);
                }
                Ok(&self.cache[i].1)
            },
            None => {
                match self.code_analyzer.analyze_file(relative_path, content) {
                    Ok(analysis) => {
                        let mut c: Vec<(String, FileAnalysis)> = Vec::new();
                        std::mem::swap(&mut c, &mut self.cache);
                        let ghost old_entries = cache_entries(c@);
                        let ghost entry = (relative_path@, analysis@);
                        c.push((relative_path.to_string(), analysis));
                        proof {
                            assert(cache_entries(c@) =~= old_entries.push(entry));
                            lemma_keyed_push(old_entries, entry);
                        }
                        self.cache = c;
                        let n = self.cache.len() - 1;
                        Ok(&self.cache[n].1)
                    },
                    Err(e) => Err(e),
                }
            },
        }
    }

    /// The paths of the analysed files, in the order in which they were
    /// first analysed.
    pub fn get_analyzed_files(&self) -> (res: Vec<&str>)
        ensures
            res@.map_values(|p: &str| p@) == self.entries().map_values(
                |e: (Seq<char>, FileAnalysisModel)| e.0,
            ),
            res@.map_values(|p: &str| p@).to_set() == self.cached().dom(),
    {
        let ghost es = self.entries();
        let ghost ks = es.map_values(|e: (Seq<char>, FileAnalysisModel)| e.0);
        let mut res: Vec<&str> = Vec::new();
        let mut i: usize = 0;
        while i < self.cache.len()
            invariant
                i <= self.cache@.len(),
                es == cache_entries(self.cache@),
                ks == es.map_values(|e: (Seq<char>, FileAnalysisModel)| e.0),
                res@.map_values(|p: &str| p@) == ks.take(i as int),
            decreases self.cache.len() - i,
        {
            let ghost before = res@.map_values(|p: &str| p@);
            res.push(self.cache[i].0.as_str());
            assert(res@.map_values(|p: &str| p@) =~= before.push(ks[i as int]));
            assert(ks.take(i + 1) =~= ks.take(i as int).push(ks[i as int]));
            i = i + 1;
        }
        assert(ks.take(i as int) =~= ks);
        assert forall|k: Seq<char>| ks.contains(k) == has_key(es, k) by {
            if ks.contains(k) {
                let j = choose|j: int| 0 <= j < ks.len() && ks[j] == k;
                assert(es[j].0 == k);
            }
            if has_key(es, k) {
                let j = choose|j: int| 0 <= j < es.len() && (#[trigger] es[j]).0 == k;
                assert(ks[j] == k);
            }
        }
        assert(ks.to_set() =~= self.cached().dom());
        res
    }

    /// Forgets every analysis.
    pub fn clear_cache(&mut self)
        ensures
            final(self).entries() == Seq::<(Seq<char>, FileAnalysisModel)>::empty(),
            final(self).cached() == Map::<Seq<char>, FileAnalysisModel>::empty(),
            final(self).analyzer() == old(self).analyzer(),
            final(self).work_dir() == old(self).work_dir(),
    {
        self.cache = Vec::new();
        proof {
            lemma_keyed_empty(cache_entries(self.cache@));
        }
    }
}

// ---------------------------------------------------------------------------
// Project report
// ---------------------------------------------------------------------------

/// Totals over the analysed files of a project.
#[derive(Debug)]
pub struct ProjectAnalysisReport {
    pub file_count: usize,
    pub function_count: usize,
    pub class_count: usize,
    pub total_loc: usize,
    /// Each language with its number of files, in order of first appearance.
    pub languages: Vec<(String, usize)>,
    /// The functions of complexity above ten, with their files.
    pub complex_functions: Vec<(String, CodeFunction)>,
}

/// The abstract value of a report.
pub struct ProjectAnalysisReportModel {
    pub file_count: usize,
    pub function_count: nat,
    pub class_count: nat,
    pub total_loc: nat,
    pub languages: Seq<(Seq<char>, nat)>,
    pub complex_functions: Seq<(Seq<char>, CodeFunctionModel)>,
}

impl View for ProjectAnalysisReport {
    type V = ProjectAnalysisReportModel;

    open spec fn view(&self) -> ProjectAnalysisReportModel {
        ProjectAnalysisReportModel {
            file_count: self.file_count,
            function_count: self.function_count as nat,
            class_count: self.class_count as nat,
            total_loc: self.total_loc as nat,
            languages: string_tally_view(self.languages@),
            complex_functions: self.complex_functions@.map_values(
                |e: (String, CodeFunction)| (e.0@, e.1@),
            ),
        }
    }
}

/// The number of functions of the analyses.
pub open spec fn functions_total(es: Seq<(Seq<char>, FileAnalysisModel)>) -> nat
    decreases es.len(),
{
    if es.len() == 0 {
        0
    } else {
        functions_total(es.drop_last()) + es.last().1.functions.len()
    }
}

/// The number of classes of the analyses.
pub open spec fn classes_total(es: Seq<(Seq<char>, FileAnalysisModel)>) -> nat
    decreases es.len(),
{
    if es.len() == 0 {
        0
    } else {
        classes_total(es.drop_last()) + es.last().1.classes.len()
    }
}

/// The number of lines of the analyses.
pub open spec fn loc_total(es: Seq<(Seq<char>, FileAnalysisModel)>) -> nat
    decreases es.len(),
{
    if es.len() == 0 {
        0
    } else {
        loc_total(es.drop_last()) + (es.last().1.loc as nat)
    }
}

/// The functions of complexity above ten among `fs`, with the path.
pub open spec fn complex_in(path: Seq<char>, fs: Seq<CodeFunctionModel>) -> Seq<
    (Seq<char>, CodeFunctionModel),
>
    decreases fs.len(),
{
    if fs.len() == 0 {
        seq![]
    } else if fs.last().complexity > 10 {
        complex_in(path, fs.drop_last()).push((path, fs.last()))
    } else {
        complex_in(path, fs.drop_last())
    }
}

/// The functions of complexity above ten of the analyses, file by file.
pub open spec fn complex_functions(es: Seq<(Seq<char>, FileAnalysisModel)>) -> Seq<
    (Seq<char>, CodeFunctionModel),
>
    decreases es.len(),
{
    if es.len() == 0 {
        seq![]
    } else {
        complex_functions(es.drop_last()) + complex_in(es.last().0, es.last().1.functions)
    }
}

/// Whether the totals of the analyses fit in a `usize`.
pub open spec fn totals_fit(es: Seq<(Seq<char>, FileAnalysisModel)>) -> bool {
    &&& functions_total(es) <= usize::MAX
    &&& classes_total(es) <= usize::MAX
    &&& loc_total(es) <= usize::MAX
}

/// The totals of a prefix are no more than those of the whole.
proof fn lemma_totals_prefix(es: Seq<(Seq<char>, FileAnalysisModel)>, i: int)
    requires
        0 <= i <= es.len(),
    ensures
        functions_total(es.take(i)) <= functions_total(es),
        classes_total(es.take(i)) <= classes_total(es),
        loc_total(es.take(i)) <= loc_total(es),
    decreases es.len() - i,
{
    if i < es.len() {
        lemma_totals_prefix(es, i + 1);
        assert(es.take(i + 1).drop_last() =~= es.take(i));
    } else {
        assert(es.take(i) =~= es);
    }
}

/// The report of a project whose analyses are `es`.
pub open spec fn project_report(es: Seq<(Seq<char>, FileAnalysisModel)>) -> ProjectAnalysisReportModel {
    ProjectAnalysisReportModel {
        file_count: es.len() as usize,
        function_count: functions_total(es),
        class_count: classes_total(es),
        total_loc: loc_total(es),
        languages: tally(es.map_values(|e: (Seq<char>, FileAnalysisModel)| e.1.language)),
        complex_functions: complex_functions(es),
    }
}

/// Appends the functions of complexity above ten to `out`, with the path.
fn push_complex(out: &mut Vec<(String, CodeFunction)>, path: &String, functions: &Vec<CodeFunction>)
    ensures
        final(out)@.map_values(|e: (String, CodeFunction)| (e.0@, e.1@)) == old(out)@.map_values(
            |e: (String, CodeFunction)| (e.0@, e.1@),
        ) + complex_in(path@, function_views(functions@)),
{
    let ghost fs = function_views(functions@);
    let ghost start = old(out)@.map_values(|e: (String, CodeFunction)| (e.0@, e.1@));
    let mut j: usize = 0;
    while j < functions.len()
        invariant
            j <= functions@.len(),
            fs == function_views(functions@),
            out@.map_values(|e: (String, CodeFunction)| (e.0@, e.1@)) == start + complex_in(
                path@,
                fs.take(j as int),
            ),
        decreases functions.len() - j,
    {
        assert(fs.take(j + 1).drop_last() =~= fs.take(j as int));
        if functions[j].complexity > 10 {
            let ghost before = out@.map_values(|e: (String, CodeFunction)| (e.0@, e.1@));
            let entry = (copy_string(path), functions[j].clone());
            let ghost ev = (entry.0@, entry.1@);
            out.push(entry);
            assert(out@.map_values(|e: (String, CodeFunction)| (e.0@, e.1@)) =~= before.push(ev));
        }
        j = j + 1;
    }
    assert(fs.take(j as int) =~= fs);
}

impl<A: CodeAnalyzer> ProjectAnalyzer<A> {
    /// The totals over the analysed files: how many files, functions,
    /// classes and lines, the files per language, and the functions of
    /// complexity above ten.
    pub fn generate_report(&self) -> (res: ProjectAnalysisReport)
        requires
            totals_fit(self.entries()),
        ensures
            res@ == project_report(self.entries()),
    {
        let ghost es = self.entries();
        let mut function_count: usize = 0;
        let mut class_count: usize = 0;
        let mut total_loc: usize = 0;
        let mut langs: Vec<String> = Vec::new();
        let mut complex: Vec<(String, CodeFunction)> = Vec::new();
        let mut i: usize = 0;
        while i < self.cache.len()
            invariant
                i <= self.cache@.len(),
                es == cache_entries(self.cache@),
                totals_fit(es),
                function_count == functions_total(es.take(i as int)),
                class_count == classes_total(es.take(i as int)),
                total_loc == loc_total(es.take(i as int)),
                string_views(langs@) == es.take(i as int).map_values(
                    |e: (Seq<char>, FileAnalysisModel)| e.1.language,
                ),
                complex@.map_values(|e: (String, CodeFunction)| (e.0@, e.1@)) == complex_functions(
                    es.take(i as int),
                ),
            decreases self.cache.len() - i,
        {
            proof {
                assert(es.take(i + 1).drop_last() =~= es.take(i as int));
                lemma_totals_prefix(es, i + 1);
            }
            let entry = &self.cache[i];
            function_count = function_count + entry.1.functions.len();
            class_count = class_count + entry.1.classes.len();
            total_loc = total_loc + entry.1.loc;
            let ghost before = string_views(langs@);
            langs.push(copy_string(&entry.1.language));
            assert(string_views(langs@) =~= before.push(es[i as int].1.language));
            assert(es.take(i + 1).map_values(|e: (Seq<char>, FileAnalysisModel)| e.1.language)
                =~= es.take(i as int).map_values(|e: (Seq<char>, FileAnalysisModel)| e.1.language).push(
                es[i as int].1.language,
            ));
            push_complex(&mut complex, &entry.0, &entry.1.functions);
            i = i + 1;
        }
        assert(es.take(i as int) =~= es);
        let languages = tally_strings(&langs);
        ProjectAnalysisReport {
            file_count: self.cache.len(),
            function_count,
            class_count,
            total_loc,
            languages,
            complex_functions: complex,
        }
    }
}

} // verus!
