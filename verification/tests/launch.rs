use mcdevkit::download::DownloadProgress;
use mcdevkit::download::server_archive_name;
use mcdevkit::server::Server;
use mcdevkit::server::ServerEvent;
use mcdevkit::server::Software;
use mcdevkit::server::SupervisorAction;
use mcdevkit::server::WorkingDirectory;
use mcdevkit::server::finalize_args;
use mcdevkit::server::handle_server_event;
use mcdevkit::server::u64_to_string;

fn sample_server(args: Vec<String>) -> Server {
    Server {
        wd: WorkingDirectory::Generate,
        software: Software::Paper,
        version: String::from("1.20.1"),
        plugins: Vec::new(),
        args,
        mem: 2048,
    }
}

#[test]
fn decimal_rendering_is_exact() {
    assert_eq!(u64_to_string(0), String::from("0"));
    assert_eq!(u64_to_string(7), String::from("7"));
    assert_eq!(u64_to_string(10), String::from("10"));
    assert_eq!(u64_to_string(2048), String::from("2048"));
    assert_eq!(u64_to_string(25565), String::from("25565"));
    assert_eq!(
        u64_to_string(u64::MAX),
        String::from("18446744073709551615")
    );
}

#[test]
fn nogui_is_appended_unless_gui_requested() {
    let args = vec![String::from("--forceUpgrade")];
    let finalized = finalize_args(args.clone(), false, 25565);
    assert_eq!(
        finalized,
        vec![String::from("--forceUpgrade"), String::from("--nogui")]
    );
    let with_gui = finalize_args(args, true, 25565);
    assert_eq!(with_gui, vec![String::from("--forceUpgrade")]);
}

#[test]
fn port_flag_is_appended_only_off_default() {
    let finalized = finalize_args(Vec::new(), true, 25566);
    assert_eq!(finalized, vec![String::from("--port=25566")]);
    let default_port = finalize_args(Vec::new(), true, 25565);
    assert!(default_port.is_empty());
}

#[test]
fn launch_args_hold_heap_flags_jar_and_passthrough() {
    let server = sample_server(vec![String::from("--nogui")]);
    assert_eq!(
        server.launch_args(),
        vec![
            String::from("-Xms256M"),
            String::from("-Xmx2048M"),
            String::from("-jar"),
            String::from("server.jar"),
            String::from("--nogui"),
        ]
    );
}

#[test]
fn launch_args_jar_name_matches_the_downloaded_archive() {
    let server = sample_server(Vec::new());
    let args = server.launch_args();
    assert_eq!(args[3], server_archive_name());
}

#[test]
fn interrupt_kills_the_child_and_natural_exit_does_not() {
    assert_eq!(
        handle_server_event(ServerEvent::Interrupted),
        SupervisorAction::KillChild
    );
    assert_eq!(
        handle_server_event(ServerEvent::Exited),
        SupervisorAction::LeaveChild
    );
}

#[test]
fn progress_accumulates_and_saturates() {
    let mut progress = DownloadProgress::new(100);
    assert_eq!(progress.received, 0);
    assert_eq!(progress.total, 100);
    progress.record_chunk(60);
    progress.record_chunk(60);
    assert_eq!(progress.received, 120);
    let mut near_max = DownloadProgress::new(0);
    near_max.record_chunk(u64::MAX - 5);
    near_max.record_chunk(10);
    assert_eq!(near_max.received, u64::MAX);
}
