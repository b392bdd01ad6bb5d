use site_engine::engine::{
    create_engine, finish_build, finish_command, finish_new_post, tool_name, version_text,
    PostStep, SiteEngine,
};
use site_engine::error::AppError;
use site_engine::hugo_adapter::HugoAdapter;
use site_engine::locator::{BinaryProbe, HostLayout};
use site_engine::models::{BuildOptions, EngineType};
use site_engine::zola_adapter::ZolaAdapter;

fn layout() -> HostLayout {
    HostLayout {
        exe_ancestors: vec!["/app/target/debug".to_string(), "/app/target".to_string(), "/app".to_string()],
        exe_dir: "/app/target/debug".to_string(),
        cwd: "/work".to_string(),
        windows: false,
    }
}

fn probe_none() -> BinaryProbe {
    BinaryProbe { local_present: vec![false; 5], on_path: None, installed_present: vec![] }
}

fn probe_path(p: &str) -> BinaryProbe {
    BinaryProbe { local_present: vec![false; 5], on_path: Some(p.to_string()), installed_present: vec![] }
}

fn strs(v: &[&str]) -> Vec<String> {
    v.iter().map(|s| s.to_string()).collect()
}

#[test]
fn create_engine_echoes_requested_type() {
    for e in [EngineType::Hugo, EngineType::Zola] {
        let engine = create_engine(e, &layout(), &probe_path("/usr/bin/tool")).unwrap();
        assert_eq!(engine.engine_type(), e);
    }
}

#[test]
fn create_engine_without_binary_is_tool_not_found() {
    for e in [EngineType::Hugo, EngineType::Zola] {
        match create_engine(e, &layout(), &probe_none()) {
            Err(AppError::ToolNotFound(t)) => assert_eq!(t, tool_name(e)),
            _ => panic!("expected ToolNotFound"),
        }
    }
}

#[test]
fn hugo_build_gc_and_drafts_only() {
    let a = HugoAdapter::with_binary("/bin/hugo".to_string());
    let o = BuildOptions { minify: false, clean: true, draft: true };
    assert_eq!(a.build_args(&o), strs(&["--gc", "-D"]));
    let all = BuildOptions { minify: true, clean: true, draft: true };
    assert_eq!(a.build_args(&all), strs(&["--minify", "--gc", "-D"]));
    let none = BuildOptions { minify: false, clean: false, draft: false };
    assert!(a.build_args(&none).is_empty());
}

#[test]
fn hugo_command_vocabulary() {
    let a = HugoAdapter::with_binary("/bin/hugo".to_string());
    assert_eq!(a.engine_type(), EngineType::Hugo);
    assert_eq!(a.init_args("blog"), strs(&["new", "site", "blog", "--force"]));
    assert_eq!(
        a.serve_args(1313),
        strs(&["server", "-D", "--bind", "127.0.0.1", "--port", "1313", "--navigateToChanged"])
    );
    assert_eq!(a.version_args(), strs(&["version"]));
    assert_eq!(a.new_post_path("My First Post"), "content/posts/my-first-post.md");
    assert_eq!(a.new_post_args("My First Post"), strs(&["new", "content/posts/my-first-post.md"]));
}

#[test]
fn zola_command_vocabulary() {
    let a = ZolaAdapter::with_binary("/bin/zola".to_string());
    assert_eq!(a.engine_type(), EngineType::Zola);
    assert_eq!(a.init_args("blog"), strs(&["init", "--force", "blog"]));
    let o = BuildOptions { minify: true, clean: true, draft: true };
    assert_eq!(a.build_args(&o), strs(&["build", "--drafts"]));
    let plain = BuildOptions { minify: true, clean: true, draft: false };
    assert_eq!(a.build_args(&plain), strs(&["build"]));
    assert_eq!(
        a.serve_args(8080),
        strs(&["serve", "--interface", "127.0.0.1", "--port", "8080", "--drafts"])
    );
    assert_eq!(a.version_args(), strs(&["--version"]));
}

#[test]
fn engine_invocations_carry_binary_and_dir() {
    let e = SiteEngine::Hugo(HugoAdapter::with_binary("/bin/hugo".to_string()));
    let inv = e.init("/sites", "blog");
    assert_eq!(inv.program, "/bin/hugo");
    assert_eq!(inv.args, strs(&["new", "site", "blog", "--force"]));
    assert_eq!(inv.working_dir, Some("/sites".to_string()));
    let b = e.build("/sites/blog", &BuildOptions { minify: false, clean: true, draft: true });
    assert_eq!(b.args, strs(&["--gc", "-D"]));
    assert_eq!(b.working_dir, Some("/sites/blog".to_string()));
    let v = e.version();
    assert_eq!(v.args, strs(&["version"]));
    assert_eq!(v.working_dir, None);
    let z = SiteEngine::Zola(ZolaAdapter::with_binary("/bin/zola".to_string()));
    assert_eq!(z.serve("/s", 1111).args, strs(&["serve", "--interface", "127.0.0.1", "--port", "1111", "--drafts"]));
}

#[test]
fn engine_new_post_steps() {
    let h = SiteEngine::Hugo(HugoAdapter::with_binary("/bin/hugo".to_string()));
    match h.new_post("/s", "Hello World", false, false) {
        PostStep::Run { invocation, post_path } => {
            assert_eq!(invocation.args, strs(&["new", "content/posts/hello-world.md"]));
            assert_eq!(post_path, "content/posts/hello-world.md");
        }
        _ => panic!("hugo delegates post creation"),
    }
    let z = SiteEngine::Zola(ZolaAdapter::with_binary("/bin/zola".to_string()));
    match z.new_post("/s", "Hello World", false, true) {
        PostStep::Write { target } => {
            assert_eq!(target.dir, "content/post");
            assert!(!target.create_dir);
            assert_eq!(target.path, "content/post/hello-world.md");
        }
        _ => panic!("zola writes posts directly"),
    }
}

#[test]
fn finishing_processes() {
    assert_eq!(finish_command(true, "".to_string()), Ok(()));
    assert_eq!(
        finish_command(false, "bad".to_string()),
        Err(AppError::EngineError("bad".to_string()))
    );
    assert_eq!(finish_new_post(true, "".to_string(), "p.md".to_string()), Ok("p.md".to_string()));
    assert_eq!(
        finish_new_post(false, "exists".to_string(), "p.md".to_string()),
        Err(AppError::EngineError("exists".to_string()))
    );
    let r = finish_build(false, 20, "out".to_string(), "err".to_string());
    assert!(!r.success);
    assert_eq!(r.errors, vec!["err".to_string()]);
}

#[test]
fn version_is_first_line_or_unknown() {
    assert_eq!(version_text("hugo v0.120.0 linux/amd64\nBuildDate=x\n"), "hugo v0.120.0 linux/amd64");
    assert_eq!(version_text("zola 0.18.0\n"), "zola 0.18.0");
    assert_eq!(version_text(""), "unknown");
}
