use backend_supervisor::command::StreamSink;
use backend_supervisor::command::backend_command;
use backend_supervisor::command::started_message;

#[test]
fn backend_command_targets_the_fixed_entry_point() {
    let command = backend_command("/opt/app/resources");
    assert_eq!(command.program, "node");
    assert_eq!(command.args, vec!["server.js".to_string()]);
    assert_eq!(command.working_dir, "/opt/app/resources/backend");
}

#[test]
fn backend_command_joins_any_resource_directory() {
    let command = backend_command("bundle");
    assert_eq!(command.working_dir, "bundle/backend");
}

#[test]
fn backend_command_discards_both_output_streams() {
    let command = backend_command("/opt/app/resources");
    assert_eq!(command.stdout, StreamSink::Discard);
    assert_eq!(command.stderr, StreamSink::Discard);
}

#[test]
fn started_message_matches_the_announcement() {
    assert_eq!(started_message(), "Backend server started successfully");
}
