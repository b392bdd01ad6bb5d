use site_engine::error::AppError;
use site_engine::locator::{
    get_hugo_binary_path, get_zola_binary_path, install_candidates, local_candidates,
    path_lookup_hit, tool_file, BinaryProbe, HostLayout,
};

fn layout(windows: bool) -> HostLayout {
    HostLayout {
        exe_ancestors: vec!["/app/target/debug".to_string(), "/app/target".to_string(), "/app".to_string()],
        exe_dir: "/app/target/debug".to_string(),
        cwd: "/work".to_string(),
        windows,
    }
}

#[test]
fn candidate_order() {
    let c = local_candidates(&layout(false), "hugo");
    assert_eq!(
        c,
        vec![
            "/app/target/debug/bin/hugo",
            "/app/target/bin/hugo",
            "/app/bin/hugo",
            "/app/target/debug/bin/hugo",
            "/work/bin/hugo",
        ]
    );
    assert!(install_candidates(&layout(false), "hugo").is_empty());
    let w = install_candidates(&layout(true), "zola");
    assert_eq!(w, vec!["C:\\Program Files\\zola\\zola.exe", "C:\\zola\\bin\\zola.exe"]);
}

#[test]
fn binary_suffix_follows_platform() {
    assert_eq!(tool_file("hugo", true), "hugo.exe");
    assert_eq!(tool_file("hugo", false), "hugo");
    assert_eq!(local_candidates(&layout(true), "zola")[4], "/work/bin/zola.exe");
}

#[test]
fn each_location_alone_is_found() {
    let l = layout(false);
    let c = local_candidates(&l, "zola");
    for i in 0..c.len() {
        let mut present = vec![false; c.len()];
        present[i] = true;
        let p = BinaryProbe { local_present: present, on_path: None, installed_present: vec![] };
        assert_eq!(get_zola_binary_path(&l, &p), Ok(c[i].clone()));
    }
    let p = BinaryProbe { local_present: vec![false; 5], on_path: Some("/usr/bin/zola".to_string()), installed_present: vec![] };
    assert_eq!(get_zola_binary_path(&l, &p), Ok("/usr/bin/zola".to_string()));
}

#[test]
fn higher_precedence_location_wins() {
    let l = layout(false);
    // ancestor walk beats beside-executable, working directory and PATH
    let p = BinaryProbe {
        local_present: vec![false, true, false, true, true],
        on_path: Some("/usr/bin/hugo".to_string()),
        installed_present: vec![],
    };
    assert_eq!(get_hugo_binary_path(&l, &p), Ok("/app/target/bin/hugo".to_string()));
    // working directory beats PATH
    let p = BinaryProbe {
        local_present: vec![false, false, false, false, true],
        on_path: Some("/usr/bin/hugo".to_string()),
        installed_present: vec![],
    };
    assert_eq!(get_hugo_binary_path(&l, &p), Ok("/work/bin/hugo".to_string()));
    // PATH beats the Windows install directories
    let w = layout(true);
    let p = BinaryProbe {
        local_present: vec![false; 5],
        on_path: Some("C:\\tools\\hugo.exe".to_string()),
        installed_present: vec![true, true],
    };
    assert_eq!(get_hugo_binary_path(&w, &p), Ok("C:\\tools\\hugo.exe".to_string()));
    let p = BinaryProbe { local_present: vec![false; 5], on_path: None, installed_present: vec![false, true] };
    assert_eq!(get_hugo_binary_path(&w, &p), Ok("C:\\hugo\\bin\\hugo.exe".to_string()));
}

#[test]
fn nothing_found_names_the_tool() {
    let p = BinaryProbe { local_present: vec![], on_path: None, installed_present: vec![] };
    assert_eq!(get_hugo_binary_path(&layout(false), &p), Err(AppError::ToolNotFound("hugo".to_string())));
}

#[test]
fn path_lookup_output() {
    assert_eq!(path_lookup_hit(true, "/usr/bin/hugo\n"), Some("/usr/bin/hugo".to_string()));
    assert_eq!(path_lookup_hit(true, "C:\\hugo.exe\r\nC:\\other\\hugo.exe\r\n"), Some("C:\\hugo.exe".to_string()));
    assert_eq!(path_lookup_hit(false, "/usr/bin/hugo\n"), None);
    assert_eq!(path_lookup_hit(true, ""), None);
    assert_eq!(path_lookup_hit(true, "\n"), None);
}
