//! The Java project model: packages of classes, with their imports,
//! relations, methods and framework roles.
//!
//! A package holds its classes keyed by name and a project holds its
//! packages keyed by name; in both, the key is the value's own `name` and no
//! key occurs twice. Their abstract values are maps from names to models.

use vstd::prelude::*;
use crate::keyed::{has_key, keyed_map, keys_distinct, lemma_keyed_at, lemma_keyed_empty, lemma_keyed_push, lemma_keyed_update, lemma_push_to_set};
use crate::text::{chars_of, contains_str, copy_string, copy_strings, string_views, strs_eq};
use crate::tree_sitter_analyzer::model::{ChangePattern, ChangePatternModel};

verus! {

// ---------------------------------------------------------------------------
// Relations, parameters and methods
// ---------------------------------------------------------------------------

/// How one Java class refers to another.
#[derive(Debug, Clone, Copy, PartialEq, Eq, Structural)]
pub enum JavaRelationType {
    Extends,
    Implements,
}

/// A class that a Java class extends or implements.
#[derive(Debug)]
pub struct JavaClassRelation {
    pub relation_type: JavaRelationType,
    pub target_class: String,
}

/// The abstract value of a class relation.
pub struct JavaClassRelationModel {
    pub relation_type: JavaRelationType,
    pub target_class: Seq<char>,
}

impl View for JavaClassRelation {
    type V = JavaClassRelationModel;

    open spec fn view(&self) -> JavaClassRelationModel {
        JavaClassRelationModel { relation_type: self.relation_type, target_class: self.target_class@ }
    }
}

impl Clone for JavaClassRelation {
    fn clone(&self) -> (res: Self)
        ensures
            res@ == self@,
    {
        JavaClassRelation {
            relation_type: self.relation_type,
            target_class: copy_string(&self.target_class),
        }
    }
}

/// A parameter of a Java method.
#[derive(Debug)]
pub struct JavaMethodParam {
    pub name: String,
    pub param_type: String,
}

/// The abstract value of a method parameter.
pub struct JavaMethodParamModel {
    pub name: Seq<char>,
    pub param_type: Seq<char>,
}

impl View for JavaMethodParam {
    type V = JavaMethodParamModel;

    open spec fn view(&self) -> JavaMethodParamModel {
        JavaMethodParamModel { name: self.name@, param_type: self.param_type@ }
    }
}

impl Clone for JavaMethodParam {
    fn clone(&self) -> (res: Self)
        ensures
            res@ == self@,
    {
        JavaMethodParam { name: copy_string(&self.name), param_type: copy_string(&self.param_type) }
    }
}

/// The views of a sequence of parameters.
pub open spec fn param_views(v: Seq<JavaMethodParam>) -> Seq<JavaMethodParamModel> {
    v.map_values(|p: JavaMethodParam| p@)
}

/// A copy of a vector of parameters.
fn copy_params(v: &Vec<JavaMethodParam>) -> (res: Vec<JavaMethodParam>)
    ensures
        param_views(res@) == param_views(v@),
{
    let mut res: Vec<JavaMethodParam> = Vec::new();
    let mut i: usize = 0;
    while i < v.len()
        invariant
            i <= v@.len(),
            param_views(res@) == param_views(v@).take(i as int),
        decreases v.len() - i,
    {
        let ghost before = param_views(res@);
        let p = v[i].clone();
        let ghost pv = p@;
        res.push(p);
        assert(param_views(res@) =~= before.push(pv));
        assert(param_views(v@)[i as int] == pv);
        assert(param_views(res@) =~= param_views(v@).take(i + 1));
        i = i + 1;
    }
    assert(param_views(v@).take(i as int) =~= param_views(v@));
    res
}

/// A Java method or constructor.
#[derive(Debug)]
pub struct JavaMethod {
    pub name: String,
    pub return_type: String,
    pub parameters: Vec<JavaMethodParam>,
    pub is_public: bool,
    pub is_static: bool,
    pub is_abstract: bool,
    pub is_constructor: bool,
    pub annotations: Vec<String>,
}

/// The abstract value of a method.
pub struct JavaMethodModel {
    pub name: Seq<char>,
    pub return_type: Seq<char>,
    pub parameters: Seq<JavaMethodParamModel>,
    pub is_public: bool,
    pub is_static: bool,
    pub is_abstract: bool,
    pub is_constructor: bool,
    pub annotations: Seq<Seq<char>>,
}

impl View for JavaMethod {
    type V = JavaMethodModel;

    open spec fn view(&self) -> JavaMethodModel {
        JavaMethodModel {
            name: self.name@,
            return_type: self.return_type@,
            parameters: param_views(self.parameters@),
            is_public: self.is_public,
            is_static: self.is_static,
            is_abstract: self.is_abstract,
            is_constructor: self.is_constructor,
            annotations: string_views(self.annotations@),
        }
    }
}

impl Clone for JavaMethod {
    fn clone(&self) -> (res: Self)
        ensures
            res@ == self@,
    {
        JavaMethod {
            name: copy_string(&self.name),
            return_type: copy_string(&self.return_type),
            parameters: copy_params(&self.parameters),
            is_public: self.is_public,
            is_static: self.is_static,
            is_abstract: self.is_abstract,
            is_constructor: self.is_constructor,
            annotations: copy_strings(&self.annotations),
        }
    }
}

/// The views of a sequence of relations.
pub open spec fn relation_views(v: Seq<JavaClassRelation>) -> Seq<JavaClassRelationModel> {
    v.map_values(|r: JavaClassRelation| r@)
}

/// The views of a sequence of methods.
pub open spec fn method_views(v: Seq<JavaMethod>) -> Seq<JavaMethodModel> {
    v.map_values(|m: JavaMethod| m@)
}

// ---------------------------------------------------------------------------
// Classes
// ---------------------------------------------------------------------------

/// A Java class, with the file that declares it.
#[derive(Debug)]
pub struct JavaClass {
    pub name: String,
    pub path: String,
    /// The imports of the class; none occurs twice.
    pub imports: Vec<String>,
    pub relations: Vec<JavaClassRelation>,
    pub methods: Vec<JavaMethod>,
    pub is_spring_bean: bool,
    pub is_jpa_entity: bool,
}

/// The abstract value of a class.
pub struct JavaClassModel {
    pub name: Seq<char>,
    pub path: Seq<char>,
    pub imports: Set<Seq<char>>,
    pub relations: Seq<JavaClassRelationModel>,
    pub methods: Seq<JavaMethodModel>,
    pub is_spring_bean: bool,
    pub is_jpa_entity: bool,
}

impl View for JavaClass {
    type V = JavaClassModel;

    open spec fn view(&self) -> JavaClassModel {
        JavaClassModel {
            name: self.name@,
            path: self.path@,
            imports: string_views(self.imports@).to_set(),
            relations: relation_views(self.relations@),
            methods: method_views(self.methods@),
            is_spring_bean: self.is_spring_bean,
            is_jpa_entity: self.is_jpa_entity,
        }
    }
}

/// A class just registered: no imports, relations or methods, no role.
pub open spec fn fresh_class(name: Seq<char>, path: Seq<char>) -> JavaClassModel {
    JavaClassModel {
        name,
        path,
        imports: Set::empty(),
        relations: Seq::empty(),
        methods: Seq::empty(),
        is_spring_bean: false,
        is_jpa_entity: false,
    }
}

impl JavaClass {
    /// Well-formed: no import occurs twice.
    pub open spec fn wf(&self) -> bool {
        string_views(self.imports@).no_duplicates()
    }

    /// A class with nothing recorded yet.
    pub fn new(name: String, path: String) -> (res: Self)
        ensures
            res.wf(),
            res@ == fresh_class(name@, path@),
    {
        let res = JavaClass {
            name,
            path,
            imports: Vec::new(),
            relations: Vec::new(),
            methods: Vec::new(),
            is_spring_bean: false,
            is_jpa_entity: false,
        };
        assert(string_views(res.imports@).to_set() =~= Set::empty());
        assert(relation_views(res.relations@) =~= Seq::empty());
        assert(method_views(res.methods@) =~= Seq::empty());
        res
    }

    /// Records an import, once.
    fn insert_import(&mut self, import: &str)
        requires
            old(self).wf(),
        ensures
            final(self).wf(),
            final(self)@ == with_import(old(self)@, import@),
    {
        let mut i: usize = 0;
        let mut found = false;
        while i < self.imports.len()
            invariant
                i <= self.imports@.len(),
                found ==> string_views(self.imports@).contains(import@),
                !found ==> forall|j: int| 0 <= j < i ==> self.imports@[j]@ != import@,
            decreases self.imports.len() - i,
        {
            if strs_eq(self.imports[i].as_str(), import) {
                assert(string_views(self.imports@)[i as int] == import@);
                found = true;
            }
            i = i + 1;
        }
        let ghost before = string_views(self.imports@);
        if found {
            assert(before.to_set() =~= before.to_set().insert(import@));
        } else {
            assert(!before.contains(import@));
            self.imports.push(import.to_string());
            assert(string_views(self.imports@) =~= before.push(import@));
            proof {
                lemma_push_to_set(before, import@);
            }
        }
    }
}

/// A class with one more import.
pub open spec fn with_import(c: JavaClassModel, import: Seq<char>) -> JavaClassModel {
    JavaClassModel { imports: c.imports.insert(import), ..c }
}

/// A class with one more relation.
pub open spec fn with_relation(c: JavaClassModel, r: JavaClassRelationModel) -> JavaClassModel {
    JavaClassModel { relations: c.relations.push(r), ..c }
}

/// A class with one more method.
pub open spec fn with_method(c: JavaClassModel, m: JavaMethodModel) -> JavaClassModel {
    JavaClassModel { methods: c.methods.push(m), ..c }
}

/// A class marked as a Spring bean.
pub open spec fn as_spring_bean(c: JavaClassModel) -> JavaClassModel {
    JavaClassModel { is_spring_bean: true, ..c }
}

/// A class marked as a JPA entity.
pub open spec fn as_jpa_entity(c: JavaClassModel) -> JavaClassModel {
    JavaClassModel { is_jpa_entity: true, ..c }
}

// ---------------------------------------------------------------------------
// Packages
// ---------------------------------------------------------------------------

/// A Java package and its classes.
#[derive(Debug)]
pub struct JavaPackage {
    pub name: String,
    /// The classes, each under its own name; no name occurs twice.
    pub classes: Vec<JavaClass>,
}

/// The abstract value of a package.
pub struct JavaPackageModel {
    pub name: Seq<char>,
    pub classes: Map<Seq<char>, JavaClassModel>,
}

/// The classes of a package as keyed entries.
pub open spec fn class_entries(v: Seq<JavaClass>) -> Seq<(Seq<char>, JavaClassModel)> {
    v.map_values(|c: JavaClass| (c.name@, c@))
}

impl View for JavaPackage {
    type V = JavaPackageModel;

    open spec fn view(&self) -> JavaPackageModel {
        JavaPackageModel { name: self.name@, classes: keyed_map(class_entries(self.classes@)) }
    }
}

/// The position of the class named `name`, if there is one.
fn find_class(classes: &Vec<JavaClass>, name: &str) -> (res: Option<usize>)
    ensures
        match res {
            Some(i) => i < classes@.len() && classes@[i as int].name@ == name@,
            None => !has_key(class_entries(classes@), name@),
        },
{
    let mut i: usize = 0;
    while i < classes.len()
        invariant
            i <= classes@.len(),
            forall|j: int| 0 <= j < i ==> classes@[j].name@ != name@,
        decreases classes.len() - i,
    {
        if strs_eq(classes[i].name.as_str(), name) {
            return Some(i);
        }
        i = i + 1;
    }
    assert forall|j: int| 0 <= j < class_entries(classes@).len() implies (#[trigger] class_entries(
        classes@,
    )[j]).0 != name@ by {
        assert(classes@[j].name@ != name@);
    }
    None
}

impl JavaPackage {
    /// Well-formed: class names are distinct and every class is well-formed.
    pub open spec fn wf(&self) -> bool {
        &&& keys_distinct(class_entries(self.classes@))
        &&& forall|i: int| 0 <= i < self.classes@.len() ==> (#[trigger] self.classes@[i]).wf()
    }

    /// An empty package.
    pub fn new(name: String) -> (res: Self)
        ensures
            res.wf(),
            res@ == (JavaPackageModel { name: name@, classes: Map::empty() }),
    {
        let res = JavaPackage { name, classes: Vec::new() };
        proof {
            lemma_keyed_empty(class_entries(res.classes@));
        }
        res
    }

    /// Registers a class, replacing any class of the same name.
    pub fn add_class(&mut self, class_name: String, path: &str)
        requires
            old(self).wf(),
        ensures
            final(self).wf(),
            final(self)@ == (JavaPackageModel {
                name: old(self)@.name,
                classes: old(self)@.classes.insert(class_name@, fresh_class(class_name@, path@)),
            }),
    {
        let found = find_class(&self.classes, class_name.as_str());
        let ghost old_entries = class_entries(self.classes@);
        let ghost key = class_name@;
        let class = JavaClass::new(class_name, path.to_string());
        let ghost entry = (class.name@, class@);
        match found {
            Some(i) => {
                let ghost old_classes = self.classes@;
                self.classes.set(i, class);
                proof {
                    assert(class_entries(self.classes@) =~= old_entries.update(i as int, entry));
                    lemma_keyed_update(old_entries, i as int, entry);
                    assert forall|j: int| 0 <= j < self.classes@.len() implies (
                    #[trigger] self.classes@[j]).wf() by {
                        if j != i {
                            assert(self.classes@[j] == old_classes[j]);
                        }
                    }
                }
            },
            None => {
                let ghost old_classes = self.classes@;
                self.classes.push(class);
                proof {
                    assert(class_entries(self.classes@) =~= old_entries.push(entry));
                    lemma_keyed_push(old_entries, entry);
                    assert forall|j: int| 0 <= j < self.classes@.len() implies (
                    #[trigger] self.classes@[j]).wf() by {
                        if j < old_classes.len() {
                            assert(self.classes@[j] == old_classes[j]);
                        }
                    }
                }
            },
        }
    }

    /// The classes of the package.
    pub fn get_classes(&self) -> (res: Vec<&JavaClass>)
        ensures
            res@.len() == self.classes@.len(),
            forall|i: int| 0 <= i < res@.len() ==> *res@[i] == self.classes@[i],
    {
        let mut res: Vec<&JavaClass> = Vec::new();
        let mut i: usize = 0;
        while i < self.classes.len()
            invariant
                i <= self.classes@.len(),
                res@.len() == i,
                forall|j: int| 0 <= j < i ==> *res@[j] == self.classes@[j],
            decreases self.classes.len() - i,
        {
            res.push(&self.classes[i]);
            i = i + 1;
        }
        res
    }
}

// ---------------------------------------------------------------------------
// Edits of one class
// ---------------------------------------------------------------------------

/// One change to the record of a class.
enum ClassEdit<'a> {
    Import(&'a str),
    Relation(&'a JavaClassRelation),
    Method(&'a JavaMethod),
    SpringBean,
    JpaEntity,
}

/// The class after the edit.
spec fn edited(c: JavaClassModel, e: ClassEdit) -> JavaClassModel {
    match e {
        ClassEdit::Import(s) => with_import(c, s@),
        ClassEdit::Relation(r) => with_relation(c, r@),
        ClassEdit::Method(m) => with_method(c, m@),
        ClassEdit::SpringBean => as_spring_bean(c),
        ClassEdit::JpaEntity => as_jpa_entity(c),
    }
}

impl JavaClass {
    /// Applies one edit.
    fn apply(&mut self, e: &ClassEdit)
        requires
            old(self).wf(),
        ensures
            final(self).wf(),
            final(self)@ == edited(old(self)@, *e),
    {
        match e {
            ClassEdit::Import(s) => {
                self.insert_import(s);
            },
            ClassEdit::Relation(r) => {
                let ghost before = relation_views(self.relations@);
                let c = (*r).clone();
                self.relations.push(c);
                assert(relation_views(self.relations@) =~= before.push(r@));
            },
            ClassEdit::Method(m) => {
                let ghost before = method_views(self.methods@);
                let c = (*m).clone();
                self.methods.push(c);
                assert(method_views(self.methods@) =~= before.push(m@));
            },
            ClassEdit::SpringBean => {
                self.is_spring_bean = true;
            },
            ClassEdit::JpaEntity => {
                self.is_jpa_entity = true;
            },
        }
    }
}

// ---------------------------------------------------------------------------
// Projects
// ---------------------------------------------------------------------------

/// The Java packages of a project.
#[derive(Debug)]
pub struct JavaProjectStructure {
    /// The packages, each under its own name; no name occurs twice.
    pub packages: Vec<JavaPackage>,
}

/// The packages of a project as keyed entries.
pub open spec fn package_entries(v: Seq<JavaPackage>) -> Seq<(Seq<char>, JavaPackageModel)> {
    v.map_values(|p: JavaPackage| (p.name@, p@))
}

impl View for JavaProjectStructure {
    type V = Map<Seq<char>, JavaPackageModel>;

    open spec fn view(&self) -> Map<Seq<char>, JavaPackageModel> {
        keyed_map(package_entries(self.packages@))
    }
}

/// Whether the project holds the class `cls` in the package `pkg`.
pub open spec fn holds_class(m: Map<Seq<char>, JavaPackageModel>, pkg: Seq<char>, cls: Seq<char>) -> bool {
    m.contains_key(pkg) && m[pkg].classes.contains_key(cls)
}

/// The project with the class `cls` of the package `pkg` replaced by `c`,
/// where the project holds that class; otherwise the project unchanged.
pub open spec fn with_class_at(
    m: Map<Seq<char>, JavaPackageModel>,
    pkg: Seq<char>,
    cls: Seq<char>,
    c: JavaClassModel,
) -> Map<Seq<char>, JavaPackageModel> {
    if holds_class(m, pkg, cls) {
        m.insert(pkg, JavaPackageModel { name: m[pkg].name, classes: m[pkg].classes.insert(cls, c) })
    } else {
        m
    }
}

/// The project after registering the class `cls` of the file `path` in the
/// package `pkg`: the package is created if needed, and the class replaces
/// any class of the same name in it.
pub open spec fn added_class(
    m: Map<Seq<char>, JavaPackageModel>,
    pkg: Seq<char>,
    cls: Seq<char>,
    path: Seq<char>,
) -> Map<Seq<char>, JavaPackageModel> {
    m.insert(
        pkg,
        JavaPackageModel {
            name: pkg,
            classes: (if m.contains_key(pkg) {
                m[pkg].classes
            } else {
                Map::empty()
            }).insert(cls, fresh_class(cls, path)),
        },
    )
}

/// The position of the package named `name`, if there is one.
fn find_package(packages: &Vec<JavaPackage>, name: &str) -> (res: Option<usize>)
    ensures
        match res {
            Some(i) => i < packages@.len() && packages@[i as int].name@ == name@,
            None => !has_key(package_entries(packages@), name@),
        },
{
    let mut i: usize = 0;
    while i < packages.len()
        invariant
            i <= packages@.len(),
            forall|j: int| 0 <= j < i ==> packages@[j].name@ != name@,
        decreases packages.len() - i,
    {
        if strs_eq(packages[i].name.as_str(), name) {
            return Some(i);
        }
        i = i + 1;
    }
    assert forall|j: int| 0 <= j < package_entries(packages@).len() implies (
    #[trigger] package_entries(packages@)[j]).0 != name@ by {
        assert(packages@[j].name@ != name@);
    }
    None
}

/// Replacing a class by one of the same name updates the package's map.
proof fn lemma_replace_class(old: Seq<JavaClass>, j: int, c: JavaClass)
    requires
        keys_distinct(class_entries(old)),
        forall|k: int| 0 <= k < old.len() ==> (#[trigger] old[k]).wf(),
        0 <= j < old.len(),
        c.wf(),
        c.name@ == old[j].name@,
    ensures
        keys_distinct(class_entries(old.update(j, c))),
        forall|k: int| 0 <= k < old.len() ==> (#[trigger] old.update(j, c)[k]).wf(),
        keyed_map(class_entries(old.update(j, c))) == keyed_map(class_entries(old)).insert(
            c.name@,
            c@,
        ),
{
    let entry = (c.name@, c@);
    assert(class_entries(old.update(j, c)) =~= class_entries(old).update(j, entry));
    lemma_keyed_update(class_entries(old), j, entry);
}

/// Replacing a package by one of the same name updates the project's map.
proof fn lemma_replace_package(old: Seq<JavaPackage>, i: int, p: JavaPackage)
    requires
        keys_distinct(package_entries(old)),
        forall|j: int| 0 <= j < old.len() ==> (#[trigger] old[j]).wf(),
        0 <= i < old.len(),
        p.wf(),
        p.name@ == old[i].name@,
    ensures
        keys_distinct(package_entries(old.update(i, p))),
        forall|j: int| 0 <= j < old.len() ==> (#[trigger] old.update(i, p)[j]).wf(),
        keyed_map(package_entries(old.update(i, p))) == keyed_map(package_entries(old)).insert(
            p.name@,
            p@,
        ),
{
    let entry = (p.name@, p@);
    assert(package_entries(old.update(i, p)) =~= package_entries(old).update(i, entry));
    lemma_keyed_update(package_entries(old), i, entry);
}

impl JavaProjectStructure {
    /// Well-formed: package names are distinct and every package is well-formed.
    pub open spec fn wf(&self) -> bool {
        &&& keys_distinct(package_entries(self.packages@))
        &&& forall|i: int| 0 <= i < self.packages@.len() ==> (#[trigger] self.packages@[i]).wf()
    }

    /// A project with no packages.
    pub fn new() -> (res: Self)
        ensures
            res.wf(),
            res@ == Map::<Seq<char>, JavaPackageModel>::empty(),
    {
        let res = JavaProjectStructure { packages: Vec::new() };
        proof {
            lemma_keyed_empty(package_entries(res.packages@));
        }
        res
    }

    /// Registers a class in a package, creating the package if needed and
    /// replacing any class of the same name in it.
    pub fn add_class(&mut self, package_name: &str, class_name: &str, path: &str)
        requires
            old(self).wf(),
        ensures
            final(self).wf(),
            final(self)@ == added_class(old(self)@, package_name@, class_name@, path@),
    {
        let found = find_package(&self.packages, package_name);
        match found {
            Some(i) => {
                proof {
                    lemma_keyed_at(package_entries(self.packages@), i as int);
                }
                let ghost old_packages = self.packages@;
                let mut p = self.packages.remove(i);
                assert(p == old_packages[i as int]);
                p.add_class(class_name.to_string(), path);
                let ghost pg = p;
                self.packages.insert(i, p);
                proof {
                    assert(self.packages@ =~= old_packages.update(i as int, pg));
                    lemma_replace_package(old_packages, i as int, pg);
                }
            },
            None => {
                let mut p = JavaPackage::new(package_name.to_string());
                p.add_class(class_name.to_string(), path);
                let ghost old_packages = self.packages@;
                let ghost old_entries = package_entries(self.packages@);
                let ghost entry = (p.name@, p@);
                self.packages.push(p);
                proof {
                    assert(package_entries(self.packages@) =~= old_entries.push(entry));
                    lemma_keyed_push(old_entries, entry);
                    assert forall|j: int| 0 <= j < self.packages@.len() implies (
                    #[trigger] self.packages@[j]).wf() by {
                        if j < old_packages.len() {
                            assert(self.packages@[j] == old_packages[j]);
                        }
                    }
                }
            },
        }
    }

    /// Applies an edit to the class `class_name` of the package
    /// `package_name`, where the project holds it.
    fn edit_class(&mut self, package_name: &str, class_name: &str, e: ClassEdit)
        requires
            old(self).wf(),
        ensures
            final(self).wf(),
            final(self)@ == with_class_at(
                old(self)@,
                package_name@,
                class_name@,
                edited(old(self)@[package_name@].classes[class_name@], e),
            ),
    {
        let found = find_package(&self.packages, package_name);
        if let Some(i) = found {
            proof {
                lemma_keyed_at(package_entries(self.packages@), i as int);
            }
            let cf = find_class(&self.packages[i].classes, class_name);
            if let Some(j) = cf {
                proof {
                    lemma_keyed_at(class_entries(self.packages@[i as int].classes@), j as int);
                }
                let ghost old_packages = self.packages@;
                let mut p = self.packages.remove(i);
                assert(p == old_packages[i as int]);
                let ghost old_classes = p.classes@;
                let mut c = p.classes.remove(j);
                assert(c == old_classes[j as int]);
                c.apply(&e);
                let ghost cg = c;
                p.classes.insert(j, c);
                proof {
                    assert(p.classes@ =~= old_classes.update(j as int, cg));
                    lemma_replace_class(old_classes, j as int, cg);
                }
                let ghost pg = p;
                self.packages.insert(i, p);
                proof {
                    assert(self.packages@ =~= old_packages.update(i as int, pg));
                    lemma_replace_package(old_packages, i as int, pg);
                }
            }
        }
    }

    /// Records an import of a class, where the project holds the class.
    pub fn add_import(&mut self, package_name: &str, class_name: &str, import: &str)
        requires
            old(self).wf(),
        ensures
            final(self).wf(),
            final(self)@ == with_class_at(
                old(self)@,
                package_name@,
                class_name@,
                with_import(old(self)@[package_name@].classes[class_name@], import@),
            ),
    {
        self.edit_class(package_name, class_name, ClassEdit::Import(import));
    }

    /// Records a relation of a class, where the project holds the class.
    pub fn add_relation(&mut self, package_name: &str, class_name: &str, relation: &JavaClassRelation)
        requires
            old(self).wf(),
        ensures
            final(self).wf(),
            final(self)@ == with_class_at(
                old(self)@,
                package_name@,
                class_name@,
                with_relation(old(self)@[package_name@].classes[class_name@], relation@),
            ),
    {
        self.edit_class(package_name, class_name, ClassEdit::Relation(relation));
    }

    /// Records a method of a class, where the project holds the class.
    pub fn add_method(&mut self, package_name: &str, class_name: &str, method: &JavaMethod)
        requires
            old(self).wf(),
        ensures
            final(self).wf(),
            final(self)@ == with_class_at(
                old(self)@,
                package_name@,
                class_name@,
                with_method(old(self)@[package_name@].classes[class_name@], method@),
            ),
    {
        self.edit_class(package_name, class_name, ClassEdit::Method(method));
    }

    /// Marks a class as a Spring bean, where the project holds the class.
    pub fn mark_as_spring_bean(&mut self, package_name: &str, class_name: &str)
        requires
            old(self).wf(),
        ensures
            final(self).wf(),
            final(self)@ == with_class_at(
                old(self)@,
                package_name@,
                class_name@,
                as_spring_bean(old(self)@[package_name@].classes[class_name@]),
            ),
    {
        self.edit_class(package_name, class_name, ClassEdit::SpringBean);
    }

    /// Marks a class as a JPA entity, where the project holds the class.
    pub fn mark_as_jpa_entity(&mut self, package_name: &str, class_name: &str)
        requires
            old(self).wf(),
        ensures
            final(self).wf(),
            final(self)@ == with_class_at(
                old(self)@,
                package_name@,
                class_name@,
                as_jpa_entity(old(self)@[package_name@].classes[class_name@]),
            ),
    {
        self.edit_class(package_name, class_name, ClassEdit::JpaEntity);
    }

    /// The packages of the project.
    pub fn get_packages(&self) -> (res: Vec<&JavaPackage>)
        ensures
            res@.len() == self.packages@.len(),
            forall|i: int| 0 <= i < res@.len() ==> *res@[i] == self.packages@[i],
    {
        let mut res: Vec<&JavaPackage> = Vec::new();
        let mut i: usize = 0;
        while i < self.packages.len()
            invariant
                i <= self.packages@.len(),
                res@.len() == i,
                forall|j: int| 0 <= j < i ==> *res@[j] == self.packages@[j],
            decreases self.packages.len() - i,
        {
            res.push(&self.packages[i]);
            i = i + 1;
        }
        res
    }

    /// The package of the given name, if the project has one.
    pub fn get_package(&self, name: &str) -> (res: Option<&JavaPackage>)
        requires
            self.wf(),
        ensures
            match res {
                Some(p) => self@.contains_key(name@) && p@ == self@[name@] && p.wf(),
                None => !self@.contains_key(name@),
            },
    {
        let found = find_package(&self.packages, name);
        match found {
            Some(i) => {
                proof {
                    lemma_keyed_at(package_entries(self.packages@), i as int);
                }
                Some(&self.packages[i])
            },
            None => None,
        }
    }
}

// ---------------------------------------------------------------------------
// Change patterns, queries and framework roles
// ---------------------------------------------------------------------------

/// Kinds of change particular to Java.
#[derive(Debug, Clone, Copy, PartialEq, Eq, Structural)]
pub enum JavaChangePattern {
    StructuralChange,
    VisibilityChange,
    AnnotationChange,
}

/// The name under which a Java change pattern is reported.
pub open spec fn java_pattern_name(p: JavaChangePattern) -> Seq<char> {
    match p {
        JavaChangePattern::StructuralChange => "JavaStructuralChange"@,
        JavaChangePattern::VisibilityChange => "JavaVisibilityChange"@,
        JavaChangePattern::AnnotationChange => "JavaAnnotationChange"@,
    }
}

/// The generic change pattern for a Java one.
pub fn to_generic_change_pattern(java_pattern: JavaChangePattern) -> (res: ChangePattern)
    ensures
        res@ == ChangePatternModel::LanguageSpecificChange(java_pattern_name(java_pattern)),
{
    ChangePattern::LanguageSpecificChange(
        match java_pattern {
            JavaChangePattern::StructuralChange => "JavaStructuralChange".to_string(),
            JavaChangePattern::VisibilityChange => "JavaVisibilityChange".to_string(),
            JavaChangePattern::AnnotationChange => "JavaAnnotationChange".to_string(),
        },
    )
}

/// The tree-sitter query that captures Java declarations.
pub open spec fn java_query_pattern() -> Seq<char> {
    "
    (class_declaration) @class.declaration
    (interface_declaration) @interface.declaration
    (enum_declaration) @enum.declaration
    (annotation_type_declaration) @annotation_type.declaration
    (method_declaration) @method.declaration
    (constructor_declaration) @constructor.declaration
    (field_declaration) @field.declaration
    (package_declaration) @package.declaration
    (import_declaration) @import.declaration
    "@
}

/// The query that captures Java declarations.
pub fn get_java_query_pattern_str() -> (res: &'static str)
    ensures
        res@ == java_query_pattern(),
{
    "
    (class_declaration) @class.declaration
    (interface_declaration) @interface.declaration
    (enum_declaration) @enum.declaration
    (annotation_type_declaration) @annotation_type.declaration
    (method_declaration) @method.declaration
    (constructor_declaration) @constructor.declaration
    (field_declaration) @field.declaration
    (package_declaration) @package.declaration
    (import_declaration) @import.declaration
    "
}

/// The annotations that make a class a Spring bean.
pub open spec fn spring_annotations() -> Seq<Seq<char>> {
    seq![
        "@Component"@,
        "@Service"@,
        "@Repository"@,
        "@Controller"@,
        "@RestController"@,
        "@Configuration"@,
        "@Bean"@,
    ]
}

/// The annotations that make a class a JPA entity.
pub open spec fn jpa_annotations() -> Seq<Seq<char>> {
    seq!["@Entity"@, "@Table"@, "@MappedSuperclass"@, "@Embeddable"@]
}

/// Whether the text contains one of the given annotations.
pub open spec fn mentions_any(source: Seq<char>, marks: Seq<Seq<char>>) -> bool {
    exists|i: int| 0 <= i < marks.len() && crate::text::contains_seq(source, #[trigger] marks[i])
}

/// Whether a Java source declares a Spring bean: it mentions one of the
/// Spring stereotype annotations.
pub fn is_java_spring_bean(source: &str) -> (res: bool)
    ensures
        res == mentions_any(source@, spring_annotations()),
{
    let v = chars_of(source);
    let s = v.as_slice();
    let r = contains_str(s, "@Component") || contains_str(s, "@Service") || contains_str(
        s,
        "@Repository",
    ) || contains_str(s, "@Controller") || contains_str(s, "@RestController") || contains_str(
        s,
        "@Configuration",
    ) || contains_str(s, "@Bean");
    proof {
        let m = spring_annotations();
        if r {
        } else {
            assert forall|i: int| 0 <= i < m.len() implies !crate::text::contains_seq(
                source@,
                #[trigger] m[i],
            ) by {}
        }
    }
    r
}

/// Whether a Java source declares a JPA entity: it mentions one of the JPA
/// entity annotations.
pub fn is_java_jpa_entity(source: &str) -> (res: bool)
    ensures
        res == mentions_any(source@, jpa_annotations()),
{
    let v = chars_of(source);
    let s = v.as_slice();
    let r = contains_str(s, "@Entity") || contains_str(s, "@Table") || contains_str(
        s,
        "@MappedSuperclass",
    ) || contains_str(s, "@Embeddable");
    proof {
        let m = jpa_annotations();
        if !r {
            assert forall|i: int| 0 <= i < m.len() implies !crate::text::contains_seq(
                source@,
                #[trigger] m[i],
            ) by {}
        }
    }
    r
}

// ---------------------------------------------------------------------------
// Laws
// ---------------------------------------------------------------------------

/// Registering a class makes the project hold it, as a fresh class of the
/// given file, and leaves every other package and every other class of the
/// same package as it was.
pub proof fn law_added_class_is_held(
    m: Map<Seq<char>, JavaPackageModel>,
    pkg: Seq<char>,
    cls: Seq<char>,
    path: Seq<char>,
)
    ensures
        holds_class(added_class(m, pkg, cls, path), pkg, cls),
        added_class(m, pkg, cls, path)[pkg].classes[cls] == fresh_class(cls, path),
        forall|q: Seq<char>|
            q != pkg ==> (#[trigger] added_class(m, pkg, cls, path).contains_key(q)
                == m.contains_key(q) && (m.contains_key(q) ==> added_class(m, pkg, cls, path)[q]
                == m[q])),
        forall|k: Seq<char>|
            k != cls && m.contains_key(pkg) ==> (
            #[trigger] added_class(m, pkg, cls, path)[pkg].classes.contains_key(k)
                == m[pkg].classes.contains_key(k) && (m[pkg].classes.contains_key(k) ==> added_class(
                m,
                pkg,
                cls,
                path,
            )[pkg].classes[k] == m[pkg].classes[k])),
{
}

/// Editing a class (an import, a relation, a method or a role) never adds
/// or removes a package or a class: the names held stay the same.
pub proof fn law_class_edit_keeps_names(
    m: Map<Seq<char>, JavaPackageModel>,
    pkg: Seq<char>,
    cls: Seq<char>,
    c: JavaClassModel,
)
    ensures
        with_class_at(m, pkg, cls, c).dom() == m.dom(),
        forall|q: Seq<char>|
            #[trigger] m.contains_key(q) ==> with_class_at(m, pkg, cls, c)[q].classes.dom()
                == m[q].classes.dom(),
        !holds_class(m, pkg, cls) ==> with_class_at(m, pkg, cls, c) == m,
{
    if holds_class(m, pkg, cls) {
        assert(with_class_at(m, pkg, cls, c).dom() =~= m.dom());
        assert forall|q: Seq<char>| #[trigger] m.contains_key(q) implies with_class_at(
            m,
            pkg,
            cls,
            c,
        )[q].classes.dom() == m[q].classes.dom() by {
            if q == pkg {
                assert(with_class_at(m, pkg, cls, c)[q].classes.dom() =~= m[q].classes.dom());
            }
        }
    }
}

/// Recording the same import twice is the same as recording it once.
pub proof fn law_import_recorded_once(c: JavaClassModel, import: Seq<char>)
    ensures
        with_import(with_import(c, import), import) == with_import(c, import),
{
    assert(c.imports.insert(import).insert(import) =~= c.imports.insert(import));
}

} // verus!
