use gauntlet_core::records::DbPluginPermissions;

fn s(x: &str) -> String {
    x.to_owned()
}

#[test]
fn empty_capabilities_deny_everything() {
    let p = DbPluginPermissions::new();
    assert!(!p.high_resolution_time);
    assert!(!p.allows_environment(&s("HOME")));
    assert!(!p.allows_network(&s("example.com")));
    assert!(!p.allows_ffi(&s("/usr/lib/libx.so")));
    assert!(!p.allows_read(&s("/tmp/a")));
    assert!(!p.allows_write(&s("/tmp/a")));
    assert!(!p.allows_subprocess(&s("ls")));
    assert!(!p.allows_system(&s("hostname")));
}

#[test]
fn granted_capabilities_allow() {
    let mut p = DbPluginPermissions::new();
    p.environment.push(s("HOME"));
    p.network.push(s("example.com"));
    p.fs_read_access.push(s("/home/user/docs"));
    p.fs_write_access.push(s("/tmp"));
    p.run_subprocess.push(s("ls"));
    p.system.push(s("hostname"));
    p.ffi.push(s("/usr/lib/libx.so"));
    assert!(p.allows_environment(&s("HOME")));
    assert!(!p.allows_environment(&s("PATH")));
    assert!(p.allows_network(&s("example.com")));
    assert!(!p.allows_network(&s("example.org")));
    assert!(p.allows_read(&s("/home/user/docs/a.txt")));
    assert!(p.allows_read(&s("/home/user/docs")));
    assert!(!p.allows_read(&s("/home/user")));
    assert!(p.allows_write(&s("/tmp/out")));
    assert!(!p.allows_write(&s("/home/user/docs/a.txt")));
    assert!(p.allows_subprocess(&s("ls")));
    assert!(!p.allows_subprocess(&s("rm")));
    assert!(p.allows_system(&s("hostname")));
    assert!(p.allows_ffi(&s("/usr/lib/libx.so")));
    assert!(!p.allows_ffi(&s("/usr/lib/liby.so")));
}
