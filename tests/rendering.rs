use tell::client::OllamaLanguageModel;
use tell::config::Config;
use tell::stream::{batch_actions, error_line, stream_actions, Action, Batch};

fn ok(pieces: &[&str]) -> Batch {
    Ok(pieces.iter().map(|p| p.to_string()).collect())
}

fn describe(actions: &[Action]) -> Vec<String> {
    actions
        .iter()
        .map(|a| match a {
            Action::Write(s) => format!("write {}", s),
            Action::Flush => "flush".to_string(),
            Action::Report(s) => format!("report {}", s),
        })
        .collect()
}

#[test]
fn fragments_are_written_in_order_each_flushed() {
    let actions = stream_actions(&vec![ok(&["Hel", "lo"])]);
    assert_eq!(describe(&actions), vec!["write Hel", "flush", "write lo", "flush"]);
}

#[test]
fn fragments_across_batches_each_flushed() {
    let actions = stream_actions(&vec![ok(&["Hel"]), ok(&["lo"])]);
    assert_eq!(describe(&actions), vec!["write Hel", "flush", "write lo", "flush"]);
}

#[test]
fn failed_batch_does_not_stop_later_fragments() {
    let batches = vec![ok(&["a"]), Err("connection reset".to_string()), ok(&["b"])];
    let actions = stream_actions(&batches);
    assert_eq!(
        describe(&actions),
        vec![
            "write a",
            "flush",
            "report Error during generation: connection reset",
            "write b",
            "flush",
        ]
    );
}

#[test]
fn empty_batch_and_empty_stream_do_nothing() {
    assert!(batch_actions(&ok(&[])).is_empty());
    assert!(stream_actions(&vec![]).is_empty());
}

#[test]
fn error_line_has_prefix() {
    assert_eq!(error_line("boom"), "Error during generation: boom");
    let actions = batch_actions(&Err("boom".to_string()));
    assert_eq!(describe(&actions), vec!["report Error during generation: boom"]);
}

#[test]
fn model_handle_keeps_config_model() {
    let model = OllamaLanguageModel::new(Config { model: "llama3".to_string() });
    assert_eq!(model.model(), "llama3");
    let request = model.request("hello world");
    assert_eq!(request.model_name, "llama3");
    assert_eq!(request.prompt, "hello world");
}
