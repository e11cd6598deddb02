use command_tui::addon::{AddonConfigureConfluentSubcommand, ConfigureError};
use command_tui::error::TuiError;

#[test]
fn configure_confluent_hands_the_arguments_through() {
    let cmd = AddonConfigureConfluentSubcommand {
        project_name: "default".to_string(),
        bootstrap_server: "pkc-419q3.us-east4.gcp.confluent.cloud:9092".to_string(),
    };
    match cmd.run() {
        Ok(request) => {
            assert_eq!(request.project_name, "default");
            assert_eq!(request.bootstrap_server, "pkc-419q3.us-east4.gcp.confluent.cloud:9092");
        }
        Err(_) => panic!("non-empty arguments must be accepted"),
    }
}

#[test]
fn configure_confluent_rejects_an_empty_project_name() {
    let cmd = AddonConfigureConfluentSubcommand {
        project_name: String::new(),
        bootstrap_server: "srv:9092".to_string(),
    };
    assert!(matches!(cmd.run(), Err(ConfigureError::EmptyProjectName)));
}

#[test]
fn configure_confluent_rejects_an_empty_bootstrap_server() {
    let cmd = AddonConfigureConfluentSubcommand {
        project_name: "default".to_string(),
        bootstrap_server: String::new(),
    };
    assert!(matches!(cmd.run(), Err(ConfigureError::EmptyBootstrapServer)));
}

#[test]
fn error_messages_render_as_reported() {
    let adapter = TuiError::Adapter { message: "connection reset".to_string() };
    assert_eq!(adapter.message(), "connection reset");
    let interaction = TuiError::Interaction { message: "stdin closed".to_string() };
    assert_eq!(interaction.message(), "stdin closed");
    let missing = TuiError::NotFound { kind: "identity".to_string(), name: "alice".to_string() };
    assert_eq!(missing.message(), "The identity alice was not found");
}
