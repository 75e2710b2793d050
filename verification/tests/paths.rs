use tipsy::path::{join_path, pipe_name, resolve_socket_path, socket_file_name};

#[test]
fn pipe_name_has_pipe_namespace_prefix() {
    assert_eq!(pipe_name("svc"), r"\\.\pipe\svc");
    assert_eq!(pipe_name(""), r"\\.\pipe\");
}

#[test]
fn socket_file_name_appends_sock_suffix() {
    assert_eq!(socket_file_name("svc"), "svc.sock");
    assert_eq!(socket_file_name(""), ".sock");
}

#[test]
fn join_path_inserts_single_separator() {
    assert_eq!(join_path("/run/user/1000", "svc.sock"), "/run/user/1000/svc.sock");
    assert_eq!(join_path("/run/user/1000/", "svc.sock"), "/run/user/1000/svc.sock");
    assert_eq!(join_path("", "svc.sock"), "/svc.sock");
}

#[test]
fn resolve_prefers_runtime_directory() {
    assert_eq!(
        resolve_socket_path(Some("/run/user/1000"), "/tmp", "svc"),
        "/run/user/1000/svc.sock"
    );
}

#[test]
fn resolve_falls_back_to_temp_directory() {
    assert_eq!(resolve_socket_path(None, "/tmp", "svc"), "/tmp/svc.sock");
}
