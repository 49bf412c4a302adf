use gitie::ai_utils::{ChatMessage, OpenAIChatCompletionResponse, OpenAIChoice, OpenAIUsage};
use gitie::errors::AIError;
use gitie::explainer::{
    contains_gitie_help, format_error_explanation, format_output_explanation,
    interpret_ai_response, plan_command_explanation, plan_error_explanation,
    plan_output_explanation, ExplainPlan,
};

#[test]
fn test_git_error_formatting() {
    let error_output = "git: 'comit' is not a git command. See 'git --help'.";
    let ai_explanation = "您可能是想输入 'commit' 而不是 'comit'。";

    let formatted = format_error_explanation(error_output, ai_explanation);

    assert!(formatted.contains("【原始 Git 错误】"), "格式化输出应包含原始错误部分");
    assert!(formatted.contains("【Gitie AI 帮助】"), "格式化输出应包含 AI 帮助部分");
    assert!(formatted.contains(error_output), "格式化输出应包含原始错误内容");
    assert!(formatted.contains(ai_explanation), "格式化输出应包含 AI 解释内容");
}

#[test]
fn error_explanation_exact_layout() {
    assert_eq!(
        format_error_explanation("boom", "fix it"),
        "【原始 Git 错误】\nboom\n\n【Gitie AI 帮助】\nfix it"
    );
}

#[test]
fn blank_error_output_is_answered_without_ai() {
    match plan_error_explanation(None, "  \n", "git comit -m 'test'") {
        ExplainPlan::Answer(a) => assert!(a.contains("Git 命令未产生错误输出")),
        ExplainPlan::Ask(_) => panic!("no request expected"),
    }
}

#[test]
fn error_plan_sends_prompt_and_command() {
    let prompt = "测试提示词".to_string();
    match plan_error_explanation(Some(&prompt), "fatal: bad", "git comit") {
        ExplainPlan::Ask(ms) => {
            assert_eq!(ms.len(), 2);
            assert_eq!(ms[0].role, "system");
            assert_eq!(ms[0].content, "测试提示词");
            assert_eq!(ms[1].role, "user");
            assert_eq!(
                ms[1].content,
                "在执行以下 Git 命令时遇到错误：\n\n命令: git comit\n\n错误输出:\nfatal: bad\n\n请分析这个错误，解释原因并提供解决方案。"
            );
        }
        ExplainPlan::Answer(_) => panic!("request expected"),
    }
}

#[test]
fn command_plan_joins_parts() {
    let parts = vec!["commit".to_string(), "-m".to_string(), "x".to_string()];
    match plan_command_explanation(None, &parts) {
        ExplainPlan::Ask(ms) => {
            assert_eq!(ms[0].content, "");
            assert_eq!(ms[1].content, "git commit -m x");
        }
        ExplainPlan::Answer(_) => panic!("request expected"),
    }
    match plan_command_explanation(None, &Vec::new()) {
        ExplainPlan::Answer(a) => assert_eq!(a, "没有提供命令部分供 AI 解释"),
        ExplainPlan::Ask(_) => panic!("no request expected"),
    }
}

#[test]
fn output_plan_recognises_gitie_help() {
    assert!(contains_gitie_help("gitie: Git with AI assistance\nusage"));
    assert!(!contains_gitie_help("usage: git"));
    let prompt = "P".to_string();
    match plan_output_explanation(Some(&prompt), "gitie: Git with AI assistance") {
        ExplainPlan::Ask(ms) => {
            assert!(ms[0].content.starts_with("P\n\n此帮助内容包含标准 Git 命令和 Gitie 特有命令。"));
            assert!(ms[1].content.starts_with("请解释以下Gitie 和 Git 帮助信息"));
        }
        ExplainPlan::Answer(_) => panic!("request expected"),
    }
    match plan_output_explanation(Some(&prompt), "usage: git") {
        ExplainPlan::Ask(ms) => {
            assert_eq!(ms[0].content, "P");
            assert_eq!(ms[1].content, "请解释以下Git 帮助信息，重点说明每个命令的作用和用法：\n\nusage: git");
        }
        ExplainPlan::Answer(_) => panic!("request expected"),
    }
    match plan_output_explanation(None, "") {
        ExplainPlan::Answer(a) => assert!(a.starts_with("该命令没有产生输出供 AI 解释。")),
        ExplainPlan::Ask(_) => panic!("no request expected"),
    }
}

#[test]
fn output_explanation_layout() {
    let e = "explained".to_string();
    assert_eq!(
        format_output_explanation("usage: git", &e),
        "# Git 命令帮助\n\n## AI 解释\n\nexplained\n\n## 原始帮助输出\n\n```text\nusage: git\n```"
    );
}

fn response_with(contents: &[&str]) -> OpenAIChatCompletionResponse {
    OpenAIChatCompletionResponse {
        id: "id".to_string(),
        object: "chat.completion".to_string(),
        created: 0,
        model: "m".to_string(),
        system_fingerprint: None,
        choices: contents
            .iter()
            .enumerate()
            .map(|(i, c)| OpenAIChoice {
                index: i as u32,
                message: ChatMessage { role: "assistant".to_string(), content: c.to_string() },
                finish_reason: "stop".to_string(),
            })
            .collect(),
        usage: OpenAIUsage { prompt_tokens: 1, completion_tokens: 1, total_tokens: 2 },
    }
}

#[test]
fn reply_is_cleaned_or_rejected() {
    match interpret_ai_response(&response_with(&["<think>hm</think>Use commit."])) {
        Ok(s) => assert_eq!(s, "Use commit."),
        Err(_) => panic!("answer expected"),
    }
    assert!(matches!(interpret_ai_response(&response_with(&["   "])), Err(AIError::EmptyMessage)));
    assert!(matches!(interpret_ai_response(&response_with(&[])), Err(AIError::NoChoiceInResponse)));
}

#[test]
fn test_explain_git_error_empty_output() {
    let prompt = "测试提示词".to_string();
    let error_output = "";
    let command = "git comit -m 'test'";
    match plan_error_explanation(Some(&prompt), error_output, command) {
        ExplainPlan::Answer(explanation) => {
            assert!(explanation.contains("Git 命令未产生错误输出"), "应该提供默认错误解释")
        }
        ExplainPlan::Ask(_) => panic!("an empty error output needs no request"),
    }
}
