use gitie::review_engine::analyzers::{
    assemble_file_analysis, calculate_complexity, calculate_file_complexity, detect_file_language, CodeAnalyzer,
    CodeFunction, FileAnalysis, ParsedClass, ParsedFunction, ParsedImport, ProjectAnalyzer,
};

fn function(name: &str, complexity: u32) -> CodeFunction {
    CodeFunction {
        name: name.to_string(),
        start_line: 1,
        end_line: 2,
        complexity,
        parameters: vec![],
    }
}

fn analysis(path: &str, language: &str, functions: Vec<CodeFunction>, loc: usize) -> FileAnalysis {
    let score = calculate_file_complexity(&functions);
    FileAnalysis {
        path: path.to_string(),
        language: language.to_string(),
        functions,
        classes: vec![],
        imports: vec![],
        loc,
        complexity_score: score,
    }
}

/// An analyser that knows two files and refuses any other.
struct TwoFiles;

impl CodeAnalyzer for TwoFiles {
    fn analyze_file(&self, file_path: &str, _content: &str) -> Result<FileAnalysis, String> {
        match file_path {
            "a.rs" => Ok(analysis("a.rs", "rust", vec![function("f", 12), function("g", 3)], 40)),
            "b.py" => Ok(analysis("b.py", "python", vec![function("h", 11)], 10)),
            _ => Err(format!("unknown file {}", file_path)),
        }
    }

    fn supported_languages(&self) -> Vec<String> {
        vec!["rust".to_string(), "python".to_string()]
    }
}

#[test]
fn complexity_counts_spaced_keywords() {
    assert_eq!(calculate_complexity("", "rust"), 1);
    assert_eq!(calculate_complexity("x = 1", "rust"), 1);
    assert_eq!(calculate_complexity(" if a { b } else { c } ", "rust"), 3);
    // Non-overlapping: " if if " holds one " if " and then "if " without a leading space.
    assert_eq!(calculate_complexity(" if if ", "go"), 2);
    // Python counts elif and except, rust does not.
    assert_eq!(calculate_complexity(" elif x: pass except ", "python"), 3);
    assert_eq!(calculate_complexity(" elif x: pass except ", "rust"), 1);
    // Unknown languages use the generic keywords.
    assert_eq!(calculate_complexity(" switch for while match ", "cobol"), 4);
}

#[test]
fn file_complexity_sums_functions() {
    assert_eq!(calculate_file_complexity(&[]), 0);
    assert_eq!(calculate_file_complexity(&[function("a", 2), function("b", 5)]), 7);
}

#[test]
fn assembled_analysis_records_declarations() {
    let fs = vec![ParsedFunction {
        name: "main".to_string(),
        start_line: 0,
        end_line: 3,
        content: "fn main() { if a { } else { } }".to_string(),
        parameters: vec!["argc".to_string()],
    }];
    let cs = vec![ParsedClass {
        name: "S".to_string(),
        start_line: 5,
        end_line: 9,
        method_count: 2,
        field_count: 1,
    }];
    let is = vec![
        ParsedImport { module: ".local".to_string(), start_line: 0 },
        ParsedImport { module: "std".to_string(), start_line: 1 },
    ];
    let a = assemble_file_analysis("src/main.rs", "line1\nline2\r\nline3\n", "rust", &fs, &cs, &is);
    assert_eq!(a.path, "src/main.rs");
    assert_eq!(a.language, "rust");
    assert_eq!(a.loc, 3);
    assert_eq!(a.functions.len(), 1);
    assert_eq!(a.functions[0].complexity, 3);
    assert_eq!(a.functions[0].parameters, vec!["argc".to_string()]);
    assert_eq!(a.complexity_score, 3);
    assert_eq!(a.classes[0].methods, 2);
    assert_eq!(a.classes[0].fields, 1);
    assert!(a.imports[0].is_relative);
    assert!(!a.imports[1].is_relative);
}

#[test]
fn supports_language_ignores_case() {
    let t = TwoFiles;
    assert!(t.supports_language("rust"));
    assert!(t.supports_language("Python"));
    assert!(!t.supports_language("java"));
}

#[test]
fn project_analyzer_keeps_each_analysis() {
    let mut p = ProjectAnalyzer::new(TwoFiles, "/work".to_string());
    assert!(p.get_analyzed_files().is_empty());
    let first = p.analyze_project_file("a.rs", "ignored").unwrap().clone();
    assert_eq!(first.functions.len(), 2);
    // A second request is answered from the cache.
    let again = p.analyze_project_file("a.rs", "other content").unwrap();
    assert_eq!(again.path, first.path);
    assert_eq!(p.get_analyzed_files(), vec!["a.rs"]);
    // The analyser's error is passed on and nothing is kept.
    let err = p.analyze_project_file("c.txt", "").unwrap_err();
    assert_eq!(err, "unknown file c.txt");
    assert_eq!(p.get_analyzed_files(), vec!["a.rs"]);
    p.analyze_project_file("b.py", "").unwrap();
    assert_eq!(p.get_analyzed_files(), vec!["a.rs", "b.py"]);

    let report = p.generate_report();
    assert_eq!(report.file_count, 2);
    assert_eq!(report.function_count, 3);
    assert_eq!(report.class_count, 0);
    assert_eq!(report.total_loc, 50);
    assert_eq!(report.languages, vec![("rust".to_string(), 1), ("python".to_string(), 1)]);
    let complex: Vec<(String, String)> = report
        .complex_functions
        .iter()
        .map(|(p, f)| (p.clone(), f.name.clone()))
        .collect();
    assert_eq!(complex, vec![("a.rs".to_string(), "f".to_string()), ("b.py".to_string(), "h".to_string())]);

    p.clear_cache();
    assert!(p.get_analyzed_files().is_empty());
    assert_eq!(p.generate_report().file_count, 0);
}

#[test]
fn file_language_by_extension() {
    assert_eq!(detect_file_language("src/main.rs").as_deref(), Some("rust"));
    assert_eq!(detect_file_language("web/App.TSX").as_deref(), Some("typescript"));
    assert_eq!(detect_file_language("include/util.h").as_deref(), Some("cpp"));
    assert_eq!(detect_file_language("lib/x.jsx").as_deref(), Some("javascript"));
    assert_eq!(detect_file_language("Makefile"), None);
    assert_eq!(detect_file_language("notes.txt"), None);
}

/// An analyser whose analysis counts the lines of the content it is given.
struct CountsLines;

impl CodeAnalyzer for CountsLines {
    fn analyze_file(&self, file_path: &str, content: &str) -> Result<FileAnalysis, String> {
        Ok(analysis(file_path, "rust", vec![], content.lines().count()))
    }

    fn supported_languages(&self) -> Vec<String> {
        vec!["rust".to_string()]
    }
}

#[test]
fn project_analyzer_hands_over_path_and_content() {
    let mut p = ProjectAnalyzer::new(CountsLines, "/work".to_string());
    let a = p.analyze_project_file("x.rs", "a\nb\nc\n").unwrap();
    assert_eq!((a.path.as_str(), a.loc), ("x.rs", 3));
    assert!(CountsLines.supports_language("RUST"));
    assert!(!CountsLines.supports_language("go"));
}
