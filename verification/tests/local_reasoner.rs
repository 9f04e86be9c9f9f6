use runory_agent::reasoner_planning::{command_decision, unfence_decision, RemoteCommandDecision};
use runory_agent::decision::AgentDecision;
use runory_agent::reasoner::Observation;
use runory_agent::reasoner_planning::{
    highest_disk_usage, local_command_decision, needs_runtime_or_package_discovery,
    summarize_local_observation,
};

fn observation(success: bool, detail: &str) -> Observation {
    Observation {
        tool_call_id: None,
        tool_name: Some("agent.command".into()),
        success,
        error_code: None,
        summary: "Terminal command completed".into(),
        detail: Some(detail.into()),
    }
}

fn proposal(decision: AgentDecision) -> (String, String, Option<String>) {
    match decision {
        AgentDecision::CommandProposal(p) => (p.command, p.reason_summary, p.observation_analysis),
        other => panic!("expected a command proposal, got {other:?}"),
    }
}

#[test]
fn local_reasoner_proposes_the_current_directory_large_file_command() {
    let (command, reason, _) = proposal(local_command_decision("查找当前目录中超过10M的文件", &[], false));
    assert_eq!(
        command,
        "find . -type f -size +10M -printf '%s %p\\n' | sort -nr | numfmt --field=1 --to=iec --suffix=B 2>&1"
    );
    assert!(reason.contains("当前目录"));
}

#[test]
fn local_reasoner_discovers_os_and_node_before_pm2_install() {
    let (command, _, _) = proposal(local_command_decision("如何在本服务上安装PM2?", &[], false));
    assert!(command.contains("/etc/os-release"));
    assert!(!command.contains(';'));
    assert!(!command.contains("command -v"));
}

#[test]
fn local_reasoner_proposes_verification_when_required() {
    let observations = [Observation {
        tool_call_id: None,
        tool_name: Some("agent.command".into()),
        success: true,
        error_code: None,
        summary: "Command completed".into(),
        detail: Some("Command: systemctl restart nginx".into()),
    }];
    let (command, _, analysis) = proposal(local_command_decision("Restart nginx", &observations, true));
    assert_eq!(command, "uname -a");
    assert!(analysis.is_some());
}

#[test]
fn production_reasoner_disk_round_proposes_command() {
    let (command, reason, analysis) =
        proposal(local_command_decision("Check disk usage and diagnose issues.", &[], false));
    assert_eq!(command, "df -h");
    assert_eq!(reason, "Inspect filesystem capacity and usage");
    assert!(analysis.is_none());
}

#[test]
fn production_reasoner_uses_command_observation_on_second_round() {
    let observations = vec![observation(true, "Command: df -h\n/dev/sda2 100G 94G 6G 94% /")];
    match local_command_decision("Check disk usage and diagnose issues.", &observations, false) {
        AgentDecision::Final { summary } => assert!(summary.contains("94%")),
        other => panic!("expected observation-grounded final, got {other:?}"),
    }
}

#[test]
fn local_summary_interprets_output_without_repeating_the_raw_terminal_dump() {
    let summary = summarize_local_observation(&observation(true, "Command: df -h\n/dev/sda2 100G 94G 6G 94% /"));
    assert!(summary.contains("94%"));
    assert!(!summary.contains("/dev/sda2"));
    assert_eq!(
        summary,
        "Filesystem usage is critically high: the largest reported usage is 94%."
    );
}

#[test]
fn local_summary_classifies_common_outcomes() {
    assert_eq!(
        summarize_local_observation(&observation(false, "ls: /var/log/nginx: No such file or directory")),
        "The configured Nginx log directory does not exist on this server, so no matching error log could be inspected."
    );
    assert_eq!(
        summarize_local_observation(&observation(false, "cat: /root/x: Permission denied")),
        "The command could not read the requested resource because the connected user lacks permission."
    );
    assert_eq!(
        summarize_local_observation(&observation(true, "/dev/sda1 85% /boot")),
        "Filesystem usage is elevated: the largest reported usage is 85%."
    );
    assert_eq!(
        summarize_local_observation(&observation(true, "/dev/sda1 5% /boot")),
        "Filesystem usage appears healthy; the largest reported usage is 5%."
    );
    assert_eq!(
        summarize_local_observation(&observation(true, "all good")),
        "The approved command completed and its terminal output was collected for analysis."
    );
    assert_eq!(
        summarize_local_observation(&observation(false, "boom")),
        "The approved command reported a failure; review the interpreted error before choosing the next step."
    );
}

#[test]
fn highest_disk_usage_takes_the_largest_percentage_token() {
    assert_eq!(highest_disk_usage("a 12% b 94% c 7%"), Some(94));
    assert_eq!(highest_disk_usage("+40% x%"), Some(40));
    assert_eq!(highest_disk_usage("99999999999% 3%"), Some(3));
    assert_eq!(highest_disk_usage("12 %  -5% %"), None);
    assert_eq!(highest_disk_usage(""), None);
}

#[test]
fn runtime_discovery_detects_node_tooling() {
    assert!(needs_runtime_or_package_discovery("install pm2 please", "install PM2 please"));
    assert!(needs_runtime_or_package_discovery("node version?", "node version?"));
    assert!(needs_runtime_or_package_discovery("如何安装 npm", "如何安装 npm"));
    assert!(needs_runtime_or_package_discovery("check", "Check Node"));
    assert!(needs_runtime_or_package_discovery("nodes are down", "nodes are down"));
    assert!(!needs_runtime_or_package_discovery("inodes full", "inodes full"));
    assert!(!needs_runtime_or_package_discovery("why is it slow", "why is it slow"));
}

#[test]
fn local_reasoner_falls_back_to_a_system_check() {
    let (command, reason, _) = proposal(local_command_decision("What is going on?", &[], false));
    assert_eq!(command, "uname -a");
    assert_eq!(reason, "Inspect the connected Linux system before continuing");
    let (command, _, _) = proposal(local_command_decision("Show the nginx error log", &[], false));
    assert_eq!(
        command,
        "find /var/log/nginx -maxdepth 1 -type f -name '*error*' -print 2>&1"
    );
}

fn remote(action: &str) -> RemoteCommandDecision {
    RemoteCommandDecision {
        action: action.into(),
        command: None,
        why: None,
        answer: None,
        question: None,
        analysis: None,
    }
}

#[test]
fn remote_command_protocol_accepts_only_complete_actions() {
    let mut proposal = remote(" Propose ");
    proposal.command = Some("df -h".into());
    proposal.why = Some("Check disk usage".into());
    match command_decision(proposal) {
        Ok(AgentDecision::CommandProposal(request)) => {
            assert_eq!(request.command, "df -h");
            assert_eq!(request.reason_summary, "Check disk usage");
            assert!(request.observation_analysis.is_none());
        }
        other => panic!("unexpected decision {other:?}"),
    }

    let mut mixed = remote("propose");
    mixed.command = Some("df -h".into());
    mixed.why = Some("Check".into());
    mixed.answer = Some("done".into());
    assert!(command_decision(mixed).is_err());

    let mut missing_reason = remote("command");
    missing_reason.command = Some("df -h".into());
    assert!(command_decision(missing_reason).is_err());

    let mut answer = remote("FINAL");
    answer.answer = Some("Disk is fine".into());
    assert!(matches!(command_decision(answer), Ok(AgentDecision::Final { summary }) if summary == "Disk is fine"));

    let mut answer_with_analysis = remote("answer");
    answer_with_analysis.answer = Some("x".into());
    answer_with_analysis.analysis = Some("y".into());
    assert!(command_decision(answer_with_analysis).is_err());

    let mut question = remote("clarify");
    question.question = Some("Which host?".into());
    assert!(matches!(command_decision(question), Ok(AgentDecision::AskUser { question }) if question == "Which host?"));

    assert!(command_decision(remote("run")).is_err());
}

#[test]
fn code_fences_are_removed_from_replies() {
    assert_eq!(unfence_decision("  {\"a\":1}  "), "{\"a\":1}");
    assert_eq!(unfence_decision("```json\n{\"a\":1}\n```"), "{\"a\":1}");
    assert_eq!(unfence_decision("```\n{}\n```"), "{}");
    // An opening fence without a closing one keeps the whole trimmed text.
    assert_eq!(unfence_decision(" ```json {} "), "```json {}");
}
