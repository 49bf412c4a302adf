//! The analyzer's set-up decisions: which grammars to load, the queries it
//! compiles, and when a cached syntax tree may be reused.

use vstd::prelude::*;
use vstd::string::StringExecFns;
use crate::config_management::settings::TreeSitterConfig;
use crate::text::{string_views, strs_eq};

verus! {

/// The languages whose grammars the analyzer loads: Rust and Java always,
/// Python and Go where the configuration names them.
pub open spec fn loaded_languages(configured: Seq<Seq<char>>) -> Seq<Seq<char>> {
    seq!["rust"@, "java"@] + (if configured.contains("python"@) {
        seq!["python"@]
    } else {
        seq![]
    }) + (if configured.contains("go"@) {
        seq!["go"@]
    } else {
        seq![]
    })
}

/// Whether `s` is one of the strings of `v`.
fn names(v: &Vec<String>, s: &str) -> (res: bool)
    ensures
        res == string_views(v@).contains(s@),
{
    let mut i: usize = 0;
    while i < v.len()
        invariant
            i <= v@.len(),
            forall|j: int| 0 <= j < i ==> v@[j]@ != s@,
        decreases v.len() - i,
    {
        if strs_eq(v[i].as_str(), s) {
            assert(string_views(v@)[i as int] == s@);
            return true;
        }
        i = i + 1;
    }
    assert(!string_views(v@).contains(s@)) by {
        assert forall|j: int| 0 <= j < string_views(v@).len() implies string_views(v@)[j] != s@ by {
            assert(v@[j]@ != s@);
        }
    }
    false
}

/// The languages whose grammars the analyzer loads (see
/// `loaded_languages`).
pub fn languages_to_load(config: &TreeSitterConfig) -> (res: Vec<String>)
    ensures
        string_views(res@) == loaded_languages(string_views(config.languages@)),
{
    let mut res: Vec<String> = Vec::new();
    res.push(String::from_str("rust"));
    res.push(String::from_str("java"));
    let ghost base = string_views(res@);
    assert(base =~= seq!["rust"@, "java"@]);
    if names(&config.languages, "python") {
        res.push(String::from_str("python"));
    }
    let ghost mid = string_views(res@);
    assert(mid =~= base + (if string_views(config.languages@).contains("python"@) {
        seq!["python"@]
    } else {
        seq![]
    }));
    if names(&config.languages, "go") {
        res.push(String::from_str("go"));
    }
    assert(string_views(res@) =~= loaded_languages(string_views(config.languages@)));
    res
}

/// Whether a cached syntax tree may be reused: caching is on and the tree
/// was parsed from text of the same hash.
pub fn is_cache_valid(config: &TreeSitterConfig, cached_hash: Option<&String>, current_hash: &str) -> (res:
    bool)
    ensures
        res == (config.cache_enabled && match cached_hash {
            Some(h) => h@ == current_hash@,
            None => false,
        }),
{
    if !config.cache_enabled {
        return false;
    }
    match cached_hash {
        Some(h) => strs_eq(h.as_str(), current_hash),
        None => false,
    }
}

/// The analyzer's query for Rust declarations and their names.
pub open spec fn analyzer_rust_query() -> Seq<char> {
    "
        ; 函数定义
        (function_item) @function.declaration
        (function_item name: (identifier) @function.name)

        ; 结构体定义
        (struct_item) @struct.declaration
        (struct_item name: (type_identifier) @struct.name)

        ; 枚举定义
        (enum_item) @enum.declaration
        (enum_item name: (type_identifier) @enum.name)

        ; 特性定义
        (trait_item) @trait.declaration
        (trait_item name: (type_identifier) @trait.name)

        ; 实现块
        (impl_item) @impl.declaration
        ; TODO: Capture impl target type and trait if present

        ; 模块定义
        (mod_item) @module.declaration
        (mod_item name: (identifier) @module.name)

        ; 常量定义
        (const_item) @const.declaration
        (const_item name: (identifier) @const.name)

        ; 静态变量定义
        (static_item) @static.declaration
        (static_item name: (identifier) @static.name)

        ; 类型别名
        (type_item) @type_alias.declaration
        (type_item name: (type_identifier) @type_alias.name)

        ; 宏定义
        (macro_definition) @macro.declaration
        (macro_definition name: (identifier) @macro.name)

        ; 使用声明
        (use_declaration) @use.declaration

        ; 属性标记 (捕获整个属性)
        (attribute_item) @attribute
        "@
}

/// The analyzer's query for Rust declarations and their names.
pub fn get_rust_query_pattern() -> (res: String)
    ensures
        res@ == analyzer_rust_query(),
{
    String::from_str("
        ; 函数定义
        (function_item) @function.declaration
        (function_item name: (identifier) @function.name)

        ; 结构体定义
        (struct_item) @struct.declaration
        (struct_item name: (type_identifier) @struct.name)

        ; 枚举定义
        (enum_item) @enum.declaration
        (enum_item name: (type_identifier) @enum.name)

        ; 特性定义
        (trait_item) @trait.declaration
        (trait_item name: (type_identifier) @trait.name)

        ; 实现块
        (impl_item) @impl.declaration
        ; TODO: Capture impl target type and trait if present

        ; 模块定义
        (mod_item) @module.declaration
        (mod_item name: (identifier) @module.name)

        ; 常量定义
        (const_item) @const.declaration
        (const_item name: (identifier) @const.name)

        ; 静态变量定义
        (static_item) @static.declaration
        (static_item name: (identifier) @static.name)

        ; 类型别名
        (type_item) @type_alias.declaration
        (type_item name: (type_identifier) @type_alias.name)

        ; 宏定义
        (macro_definition) @macro.declaration
        (macro_definition name: (identifier) @macro.name)

        ; 使用声明
        (use_declaration) @use.declaration

        ; 属性标记 (捕获整个属性)
        (attribute_item) @attribute
        ")
}

/// The analyzer's query for Java declarations, imports and annotations.
pub open spec fn analyzer_java_query() -> Seq<char> {
    "
        ; Class declarations
        (class_declaration name: (identifier) @class.name) @class.declaration

        ; Interface declarations
        (interface_declaration name: (identifier) @interface.name) @interface.declaration

        ; Enum declarations
        (enum_declaration name: (identifier) @enum.name) @enum.declaration

        ; Method declarations
        (method_declaration name: (identifier) @method.name) @method.declaration

        ; Constructor declarations
        (constructor_declaration name: (identifier) @constructor.name) @constructor.declaration

        ; Field declarations (instance variables)
        (field_declaration declarator: (variable_declarator name: (identifier) @field.name)) @field.declaration

        ; Static field declarations
        (field_declaration (modifiers (marker_annotation name: (identifier) @annotation.name))? (type_identifier) (variable_declarator name: (identifier) @static.field.name)) @static.field.declaration

        ; Package declaration
        (package_declaration (scoped_identifier) @package.name) @package.declaration

        ; Import statements
        (import_declaration (scoped_identifier) @import.name) @import.declaration
        (import_declaration (asterisk) @import.wildcard) @import.declaration

        ; Annotations
        (marker_annotation name: (identifier) @annotation.name) @annotation.declaration
        (annotation name: (identifier) @annotation.name) @annotation.declaration

        ; Method invocations (useful for call graphs, but can be noisy)
        ; (method_invocation name: (identifier) @method.call)

        ; Object creation (constructors)
        ; (object_creation_expression type: (type_identifier) @constructor.call)
        "@
}

/// The analyzer's query for Java declarations, imports and annotations.
pub fn get_java_query_pattern() -> (res: String)
    ensures
        res@ == analyzer_java_query(),
{
    String::from_str("
        ; Class declarations
        (class_declaration name: (identifier) @class.name) @class.declaration

        ; Interface declarations
        (interface_declaration name: (identifier) @interface.name) @interface.declaration

        ; Enum declarations
        (enum_declaration name: (identifier) @enum.name) @enum.declaration

        ; Method declarations
        (method_declaration name: (identifier) @method.name) @method.declaration

        ; Constructor declarations
        (constructor_declaration name: (identifier) @constructor.name) @constructor.declaration

        ; Field declarations (instance variables)
        (field_declaration declarator: (variable_declarator name: (identifier) @field.name)) @field.declaration

        ; Static field declarations
        (field_declaration (modifiers (marker_annotation name: (identifier) @annotation.name))? (type_identifier) (variable_declarator name: (identifier) @static.field.name)) @static.field.declaration

        ; Package declaration
        (package_declaration (scoped_identifier) @package.name) @package.declaration

        ; Import statements
        (import_declaration (scoped_identifier) @import.name) @import.declaration
        (import_declaration (asterisk) @import.wildcard) @import.declaration

        ; Annotations
        (marker_annotation name: (identifier) @annotation.name) @annotation.declaration
        (annotation name: (identifier) @annotation.name) @annotation.declaration

        ; Method invocations (useful for call graphs, but can be noisy)
        ; (method_invocation name: (identifier) @method.call)

        ; Object creation (constructors)
        ; (object_creation_expression type: (type_identifier) @constructor.call)
        ")
}

} // verus!
