use gitie::tree_sitter_analyzer::model::{parse_git_diff, ChangeType};

#[test]
fn tree_sitter_analyzer_test_parse_git_diff() {
    let diff_text = r#"diff --git a/src/main.rs b/src/main.rs
index 83db48f..2c6f1f0 100644
--- a/src/main.rs
+++ b/src/main.rs
@@ -1,5 +1,5 @@
 fn main() {
-    println!("Hello, world!");
+    println!("Hello, Tree-sitter!");
 }
"#;

    let result = parse_git_diff(diff_text);
    assert!(result.is_ok(), "应该能成功解析diff");

    let diff = result.unwrap();
    assert_eq!(diff.changed_files.len(), 1, "应该包含1个修改的文件");
    assert_eq!(diff.changed_files[0].change_type, ChangeType::Modified);
    assert_eq!(diff.changed_files[0].path, "src/main.rs".to_string());
}
