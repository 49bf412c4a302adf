//! Building the Java project model from what a parser found in each Java
//! file, and the facts of a file from the matches of the Java queries.

use vstd::prelude::*;
use vstd::string::StringExecFns;
use crate::errors::TreeSitterError;
use crate::text::{chars_of, contains_seq, contains_str, copy_string, path_file_stem_of, string_views, trim_seq};
use crate::tree_sitter_analyzer::java_syntax::{
    extract_java_class_name, extract_java_class_relations, extract_java_imports, extract_java_methods,
    extract_java_package_name, first_named_text, java_methods, match_texts, relations_to,
};
use crate::tree_sitter_analyzer::syntax::SyntaxMatch;
use crate::tree_sitter_analyzer::java::{
    added_class, as_jpa_entity, as_spring_bean, method_views, relation_views, with_class_at,
    with_import, with_method, with_relation, JavaClassRelation, JavaClassRelationModel,
    JavaMethod, JavaMethodModel, JavaPackageModel, JavaProjectStructure, JavaRelationType,
};

verus! {

/// What a parser found in one Java file.
#[derive(Debug)]
pub struct JavaFileFacts {
    pub path: String,
    /// The declared package, if one could be found.
    pub package_name: Option<String>,
    /// The name of the first class, interface or enum, or else of the file;
    /// none where neither could be had.
    pub class_name: Option<String>,
    /// The imports (empty where they could not be extracted).
    pub imports: Vec<String>,
    /// The classes extended or implemented (empty where they could not be
    /// extracted).
    pub relations: Vec<JavaClassRelation>,
    /// The methods and constructors (empty where they could not be extracted).
    pub methods: Vec<JavaMethod>,
    /// The source text.
    pub source: String,
}

/// The abstract value of the facts of a file.
pub struct JavaFileFactsModel {
    pub path: Seq<char>,
    pub package_name: Option<Seq<char>>,
    pub class_name: Option<Seq<char>>,
    pub imports: Seq<Seq<char>>,
    pub relations: Seq<JavaClassRelationModel>,
    pub methods: Seq<JavaMethodModel>,
    pub source: Seq<char>,
}

impl View for JavaFileFacts {
    type V = JavaFileFactsModel;

    open spec fn view(&self) -> JavaFileFactsModel {
        JavaFileFactsModel {
            path: self.path@,
            package_name: match self.package_name {
                Some(p) => Some(p@),
                None => None,
            },
            class_name: match self.class_name {
                Some(c) => Some(c@),
                None => None,
            },
            imports: string_views(self.imports@),
            relations: relation_views(self.relations@),
            methods: method_views(self.methods@),
            source: self.source@,
        }
    }
}

/// The project after recording the imports, one after another, of a class.
pub open spec fn add_imports(
    m: Map<Seq<char>, JavaPackageModel>,
    pkg: Seq<char>,
    cls: Seq<char>,
    imps: Seq<Seq<char>>,
) -> Map<Seq<char>, JavaPackageModel>
    decreases imps.len(),
{
    if imps.len() == 0 {
        m
    } else {
        let before = add_imports(m, pkg, cls, imps.drop_last());
        with_class_at(before, pkg, cls, with_import(before[pkg].classes[cls], imps.last()))
    }
}

/// The project after recording the relations, one after another, of a class.
pub open spec fn add_relations(
    m: Map<Seq<char>, JavaPackageModel>,
    pkg: Seq<char>,
    cls: Seq<char>,
    rels: Seq<JavaClassRelationModel>,
) -> Map<Seq<char>, JavaPackageModel>
    decreases rels.len(),
{
    if rels.len() == 0 {
        m
    } else {
        let before = add_relations(m, pkg, cls, rels.drop_last());
        with_class_at(before, pkg, cls, with_relation(before[pkg].classes[cls], rels.last()))
    }
}

/// The project after recording the methods, one after another, of a class.
pub open spec fn add_methods(
    m: Map<Seq<char>, JavaPackageModel>,
    pkg: Seq<char>,
    cls: Seq<char>,
    ms: Seq<JavaMethodModel>,
) -> Map<Seq<char>, JavaPackageModel>
    decreases ms.len(),
{
    if ms.len() == 0 {
        m
    } else {
        let before = add_methods(m, pkg, cls, ms.drop_last());
        with_class_at(before, pkg, cls, with_method(before[pkg].classes[cls], ms.last()))
    }
}

/// Whether a source names one of the stereotypes taken as a Spring bean
/// here: `@Component`, `@Service` or `@Repository`.
pub open spec fn names_bean_stereotype(source: Seq<char>) -> bool {
    contains_seq(source, "@Component"@) || contains_seq(source, "@Service"@) || contains_seq(
        source,
        "@Repository"@,
    )
}

/// The project after recording one Java file: nothing where the class name
/// is unknown; otherwise the class is registered in its package (the
/// unnamed one where none was found), its imports, relations and methods
/// are recorded, and it is marked as a JPA entity where the source names
/// `@Entity` and as a Spring bean where it names a bean stereotype.
pub open spec fn recorded_file(m: Map<Seq<char>, JavaPackageModel>, f: JavaFileFactsModel) -> Map<
    Seq<char>,
    JavaPackageModel,
> {
    match f.class_name {
        None => m,
        Some(cls) => {
            let pkg = match f.package_name {
                Some(p) => p,
                None => Seq::<char>::empty(),
            };
            let m1 = add_methods(
                add_relations(
                    add_imports(added_class(m, pkg, cls, f.path), pkg, cls, f.imports),
                    pkg,
                    cls,
                    f.relations,
                ),
                pkg,
                cls,
                f.methods,
            );
            let m2 = if contains_seq(f.source, "@Entity"@) {
                with_class_at(m1, pkg, cls, as_jpa_entity(m1[pkg].classes[cls]))
            } else {
                m1
            };
            if names_bean_stereotype(f.source) {
                with_class_at(m2, pkg, cls, as_spring_bean(m2[pkg].classes[cls]))
            } else {
                m2
            }
        },
    }
}

/// The project after recording the files, one after another.
pub open spec fn recorded_files(m: Map<Seq<char>, JavaPackageModel>, fs: Seq<JavaFileFactsModel>) -> Map<
    Seq<char>,
    JavaPackageModel,
>
    decreases fs.len(),
{
    if fs.len() == 0 {
        m
    } else {
        recorded_file(recorded_files(m, fs.drop_last()), fs.last())
    }
}

/// Records one Java file in the project (see `recorded_file`).
pub fn record_java_file(project: &mut JavaProjectStructure, facts: &JavaFileFacts)
    requires
        old(project).wf(),
    ensures
        final(project).wf(),
        final(project)@ == recorded_file(old(project)@, facts@),
{
    let class_name = match &facts.class_name {
        Some(c) => c,
        None => {
            return ;
        },
    };
    let package_name: String = match &facts.package_name {
        Some(p) => copy_string(p),
        None => String::new(),
    };
    let ghost pkg = package_name@;
    let ghost cls = class_name@;
    proof {
        assert(pkg == match facts@.package_name {
            Some(p) => p,
            None => Seq::<char>::empty(),
        });
    }
    project.add_class(package_name.as_str(), class_name.as_str(), facts.path.as_str());
    let ghost m0 = project@;
    let mut i: usize = 0;
    while i < facts.imports.len()
        invariant
            i <= facts.imports@.len(),
            package_name@ == pkg,
            class_name@ == cls,
            project.wf(),
            project@ == add_imports(m0, pkg, cls, string_views(facts.imports@).take(i as int)),
        decreases facts.imports.len() - i,
    {
        proof {
            assert(string_views(facts.imports@).take(i + 1).drop_last() =~= string_views(
                facts.imports@,
            ).take(i as int));
            assert(string_views(facts.imports@).take(i + 1).last() == facts.imports@[i as int]@);
        }
        project.add_import(package_name.as_str(), class_name.as_str(), facts.imports[i].as_str());
        i = i + 1;
    }
    assert(string_views(facts.imports@).take(i as int) =~= string_views(facts.imports@));
    let ghost m1 = project@;
    let mut j: usize = 0;
    while j < facts.relations.len()
        invariant
            j <= facts.relations@.len(),
            package_name@ == pkg,
            class_name@ == cls,
            project.wf(),
            project@ == add_relations(m1, pkg, cls, relation_views(facts.relations@).take(j as int)),
        decreases facts.relations.len() - j,
    {
        proof {
            assert(relation_views(facts.relations@).take(j + 1).drop_last() =~= relation_views(
                facts.relations@,
            ).take(j as int));
            assert(relation_views(facts.relations@).take(j + 1).last() == facts.relations@[j as int]@);
        }
        project.add_relation(package_name.as_str(), class_name.as_str(), &facts.relations[j]);
        j = j + 1;
    }
    assert(relation_views(facts.relations@).take(j as int) =~= relation_views(facts.relations@));
    let ghost m2 = project@;
    let mut k: usize = 0;
    while k < facts.methods.len()
        invariant
            k <= facts.methods@.len(),
            package_name@ == pkg,
            class_name@ == cls,
            project.wf(),
            project@ == add_methods(m2, pkg, cls, method_views(facts.methods@).take(k as int)),
        decreases facts.methods.len() - k,
    {
        proof {
            assert(method_views(facts.methods@).take(k + 1).drop_last() =~= method_views(
                facts.methods@,
            ).take(k as int));
            assert(method_views(facts.methods@).take(k + 1).last() == facts.methods@[k as int]@);
        }
        project.add_method(package_name.as_str(), class_name.as_str(), &facts.methods[k]);
        k = k + 1;
    }
    assert(method_views(facts.methods@).take(k as int) =~= method_views(facts.methods@));
    let src = chars_of(facts.source.as_str());
    if contains_str(src.as_slice(), "@Entity") {
        project.mark_as_jpa_entity(package_name.as_str(), class_name.as_str());
    }
    if contains_str(src.as_slice(), "@Component") || contains_str(src.as_slice(), "@Service")
        || contains_str(src.as_slice(), "@Repository") {
        project.mark_as_spring_bean(package_name.as_str(), class_name.as_str());
    }
}

/// The project model of the Java files whose facts are given, recorded in
/// order (see `recorded_file`).
pub fn build_java_project_structure(files: &Vec<JavaFileFacts>) -> (res: JavaProjectStructure)
    ensures
        res.wf(),
        res@ == recorded_files(
            Map::empty(),
            files@.map_values(|f: JavaFileFacts| f@),
        ),
{
    let ghost fs = files@.map_values(|f: JavaFileFacts| f@);
    let mut project = JavaProjectStructure::new();
    let mut i: usize = 0;
    while i < files.len()
        invariant
            i <= files@.len(),
            fs == files@.map_values(|f: JavaFileFacts| f@),
            project.wf(),
            project@ == recorded_files(Map::empty(), fs.take(i as int)),
        decreases files.len() - i,
    {
        proof {
            assert(fs.take(i + 1).drop_last() =~= fs.take(i as int));
        }
        record_java_file(&mut project, &files[i]);
        i = i + 1;
    }
    assert(fs.take(i as int) =~= fs);
    project
}

/// The matches of the queries the Java analysis runs over one file; `None`
/// for a query that could not be made.
pub struct JavaFileMatches {
    pub package: Option<Vec<SyntaxMatch>>,
    pub class_name: Option<Vec<SyntaxMatch>>,
    pub imports: Option<Vec<SyntaxMatch>>,
    pub extends: Option<Vec<SyntaxMatch>>,
    pub implements: Option<Vec<SyntaxMatch>>,
    pub methods: Option<Vec<SyntaxMatch>>,
}

/// The facts of one Java file, from the matches of the analysis queries
/// over it: the package where one is found, the class name where the query
/// or the file name gives one, and the imports, relations and methods
/// (none from a query that could not be made; no relations unless both
/// relation queries could be made).
pub fn java_file_facts(path: &str, source: &str, matches: &JavaFileMatches) -> (res: JavaFileFacts)
    ensures
        res@.path == path@,
        res@.source == source@,
        res@.package_name == match &matches.package {
            Some(ms) => first_named_text(ms@, "package.name"@),
            None => None,
        },
        res@.class_name == match &matches.class_name {
            Some(ms) => match first_named_text(ms@, "name"@) {
                Some(t) => Some(trim_seq(t)),
                None => path_file_stem_of(path@),
            },
            None => None,
        },
        res@.imports == match &matches.imports {
            Some(ms) => match_texts(ms@),
            None => Seq::empty(),
        },
        res@.relations == match (&matches.extends, &matches.implements) {
            (Some(e), Some(i)) => relations_to(JavaRelationType::Extends, match_texts(e@)) + relations_to(
                JavaRelationType::Implements,
                match_texts(i@),
            ),
            _ => Seq::empty(),
        },
        res@.methods == match &matches.methods {
            Some(ms) => java_methods(ms@),
            None => Seq::empty(),
        },
{
    let package_name = match &matches.package {
        Some(ms) => match extract_java_package_name(ms) {
            Ok(p) => Some(p),
            Err(_) => None,
        },
        None => None,
    };
    let class_name = match &matches.class_name {
        Some(ms) => match extract_java_class_name(ms, path) {
            Ok(c) => Some(c),
            Err(_) => None,
        },
        None => None,
    };
    let imports = match &matches.imports {
        Some(ms) => extract_java_imports(ms),
        None => Vec::new(),
    };
    let relations = match (&matches.extends, &matches.implements) {
        (Some(e), Some(i)) => extract_java_class_relations(e, i),
        _ => Vec::new(),
    };
    let methods = match &matches.methods {
        Some(ms) => extract_java_methods(ms),
        None => Vec::new(),
    };
    let facts = JavaFileFacts {
        path: String::from_str(path),
        package_name,
        class_name,
        imports,
        relations,
        methods,
        source: String::from_str(source),
    };
    assert(facts@.imports =~= match &matches.imports {
        Some(ms) => match_texts(ms@),
        None => Seq::empty(),
    });
    assert(facts@.relations =~= match (&matches.extends, &matches.implements) {
        (Some(e), Some(i)) => relations_to(JavaRelationType::Extends, match_texts(e@)) + relations_to(
            JavaRelationType::Implements,
            match_texts(i@),
        ),
        _ => Seq::empty(),
    });
    assert(facts@.methods =~= match &matches.methods {
        Some(ms) => java_methods(ms@),
        None => Seq::empty(),
    });
    facts
}

/// The project model of a source directory. No file of the directory is
/// read: the model is empty.
pub fn analyze_java_project_structure(_project_root: &str) -> (res: Result<JavaProjectStructure, TreeSitterError>)
    ensures
        res matches Ok(p) && p.wf() && p@ == Map::<Seq<char>, JavaPackageModel>::empty(),
{
    Ok(JavaProjectStructure::new())
}

} // verus!
