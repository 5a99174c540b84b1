use haval_tool::install::{
    build_echo_command, escape_script, install_steps, RESULT_TIMEOUT_SECS, STEP_SETTLE_SECS,
    WRITE_SETTLE_SECS,
};
use haval_tool::session::ConnectionState;

#[test]
fn escape_replaces_line_feeds() {
    assert_eq!(escape_script(b""), b"".to_vec());
    assert_eq!(escape_script(b"a\nb"), b"a\\nb".to_vec());
    assert_eq!(escape_script(b"\n\n"), b"\\n\\n".to_vec());
    assert_eq!(escape_script(b"plain"), b"plain".to_vec());
}

#[test]
fn echo_command_embeds_escaped_script() {
    assert_eq!(
        build_echo_command(b"x"),
        b"echo -e 'x' > /data/local/tmp/install.sh".to_vec()
    );
    assert_eq!(
        build_echo_command(b"l1\nl2"),
        b"echo -e 'l1\\nl2' > /data/local/tmp/install.sh".to_vec()
    );
}

#[test]
fn sequence_is_exactly_three_steps_in_order() {
    let steps = install_steps(b"line1\nline2");
    assert_eq!(steps.len(), 3);
    assert_eq!(
        steps[0].command,
        b"echo -e 'line1\\nline2' > /data/local/tmp/install.sh".to_vec()
    );
    assert_eq!(steps[0].settle_secs, WRITE_SETTLE_SECS);
    assert_eq!(steps[1].command, b"chmod +x /data/local/tmp/install.sh".to_vec());
    assert_eq!(steps[1].settle_secs, STEP_SETTLE_SECS);
    assert_eq!(steps[2].command, b"cd /data/local/tmp && ./install.sh".to_vec());
    assert_eq!(steps[2].settle_secs, STEP_SETTLE_SECS);
}

#[test]
fn settle_delays_and_deadline() {
    assert_eq!(WRITE_SETTLE_SECS, 2);
    assert_eq!(STEP_SETTLE_SECS, 1);
    assert_eq!(RESULT_TIMEOUT_SECS, 600);
}

#[test]
fn mock_transport_sees_three_writes_in_order() {
    let mut state = ConnectionState::new();
    state.connect_to_telnet();
    let mut transport: Vec<Vec<u8>> = Vec::new();
    for step in install_steps(b"echo hi\nexit 0") {
        let write = state.send_command(&step.command).expect("session is live");
        transport.push(write);
    }
    assert_eq!(
        transport,
        vec![
            b"echo -e 'echo hi\\nexit 0' > /data/local/tmp/install.sh\n".to_vec(),
            b"chmod +x /data/local/tmp/install.sh\n".to_vec(),
            b"cd /data/local/tmp && ./install.sh\n".to_vec(),
        ]
    );
}
