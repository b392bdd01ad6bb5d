use site_engine::error::AppError;
use site_engine::models::EngineType;
use site_engine::posts::{list_posts, path_before, post_file_name, post_info, sort_newest_first, ContentFile, PostInfo};
use site_engine::project::{detect_engine, validate_path};
use site_engine::zola_adapter::ZolaAdapter;

#[test]
fn post_file_name_lowercases_and_hyphenates() {
    assert_eq!(post_file_name("Hello World Again"), "hello-world-again.md");
    assert_eq!(post_file_name("Hello World Again"), post_file_name("Hello World Again"));
    assert_eq!(post_file_name(""), ".md");
}

#[test]
fn post_info_filters_and_titles() {
    let p = post_info("/s/content/posts/my-first_post.md", "my-first_post.md").unwrap();
    assert_eq!(p.title, "my first post");
    assert_eq!(p.path, "/s/content/posts/my-first_post.md");
    assert!(p.date.is_none());
    assert_eq!(post_info("/s/x.markdown", "x.markdown").unwrap().title, "x");
    assert!(post_info("/s/_index.md", "_index.md").is_none());
    assert!(post_info("/s/a.txt", "a.txt").is_none());
    assert!(post_info("/s/.md", ".md").is_none());
}

#[test]
fn path_order() {
    assert!(path_before("a", "b"));
    assert!(path_before("a", "ab"));
    assert!(!path_before("ab", "a"));
    assert!(!path_before("a", "a"));
}

fn info(path: &str) -> PostInfo {
    PostInfo { title: String::new(), path: path.to_string(), date: None }
}

#[test]
fn sort_puts_last_path_first() {
    let r = sort_newest_first(vec![info("b"), info("c"), info("a")]);
    let paths: Vec<String> = r.into_iter().map(|p| p.path).collect();
    assert_eq!(paths, vec!["c", "b", "a"]);
}

#[test]
fn list_posts_keeps_posts_newest_first() {
    let files = vec![
        ContentFile { path: "/s/content/posts/2023-a.md".to_string(), file_name: "2023-a.md".to_string() },
        ContentFile { path: "/s/content/_index.md".to_string(), file_name: "_index.md".to_string() },
        ContentFile { path: "/s/content/posts/2024-b.markdown".to_string(), file_name: "2024-b.markdown".to_string() },
        ContentFile { path: "/s/content/img.png".to_string(), file_name: "img.png".to_string() },
    ];
    let r = list_posts(&files);
    assert_eq!(r.len(), 2);
    assert_eq!(r[0].path, "/s/content/posts/2024-b.markdown");
    assert_eq!(r[0].title, "2024 b");
    assert_eq!(r[1].title, "2023 a");
    assert!(list_posts(&vec![]).is_empty());
}

#[test]
fn validate_path_outcomes() {
    assert_eq!(
        validate_path("rel", None, false),
        Err(AppError::InvalidPath("rel".to_string()))
    );
    assert_eq!(
        validate_path("rel", Some("/abs/rel".to_string()), false),
        Err(AppError::PathNotFound("/abs/rel".to_string()))
    );
    assert_eq!(validate_path("rel", Some("/abs/rel".to_string()), true), Ok("/abs/rel".to_string()));
}

#[test]
fn detect_engine_by_config() {
    assert_eq!(detect_engine(true, false, None), Ok(EngineType::Hugo));
    assert_eq!(detect_engine(false, true, Some("base_url = 1")), Ok(EngineType::Hugo));
    assert_eq!(detect_engine(false, false, Some("base_url = \"https://x\"")), Ok(EngineType::Zola));
    assert_eq!(detect_engine(false, false, Some("baseURL = \"https://x\"")), Ok(EngineType::Hugo));
    assert_eq!(
        detect_engine(false, false, None),
        Err(AppError::EngineError("Unable to detect project type".to_string()))
    );
}

#[test]
fn zola_post_target_choice() {
    let a = ZolaAdapter::with_binary("/bin/zola".to_string());
    let t = a.new_post_target("A B", true, true);
    assert_eq!(t.path, "content/posts/a-b.md");
    assert!(!t.create_dir);
    let t = a.new_post_target("A B", false, false);
    assert_eq!(t.dir, "content/posts");
    assert!(t.create_dir);
}

#[test]
fn zola_post_text() {
    let a = ZolaAdapter::with_binary("/bin/zola".to_string());
    let t = a.post_text("Hi", "2024-05-01T10:00:00+00:00");
    assert_eq!(
        t,
        "+++\ntitle = \"Hi\"\ndate = 2024-05-01T10:00:00+00:00\ndraft = true\n\n[taxonomies]\ntags = []\ncategories = []\n+++\n\nWrite your content here...\n"
    );
}

#[test]
fn second_post_with_same_title_is_refused() {
    let a = ZolaAdapter::with_binary("/bin/zola".to_string());
    let first = a.new_post_target("Same Title", false, false);
    let text = a.post_file_now(&first, "Same Title", false).unwrap();
    assert!(text.contains("title = \"Same Title\""));
    // the first call created the posts directory and the file
    let second = a.new_post_target("Same Title", true, false);
    assert_eq!(second.path, first.path);
    match a.post_file_now(&second, "Same Title", true) {
        Err(AppError::EngineError(m)) => assert!(m.contains("already exists")),
        _ => panic!("second post must be refused"),
    }
}
