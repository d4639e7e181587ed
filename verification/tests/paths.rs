use oto::paths::{
    app_bundle_name, components_with_ends, display_name, file_name, is_bundled_app,
    path_components, path_to_authorize,
};

#[test]
fn components_like_std() {
    assert_eq!(path_components("/a//b/./c/"), vec!["a", "b", "c"]);
    assert_eq!(path_components("./a/../b"), vec![".", "a", "..", "b"]);
    assert_eq!(path_components("/"), Vec::<String>::new());
    assert_eq!(path_components(""), Vec::<String>::new());
    assert_eq!(path_components("a/./."), vec!["a"]);
}

#[test]
fn file_names_like_std() {
    for p in ["/usr/bin/oto", "oto", "/", "", "a/..", "a/.", "./", "/x/y/", "..", "."] {
        let expected = std::path::Path::new(p)
            .file_name()
            .map(|n| n.to_string_lossy().into_owned());
        assert_eq!(file_name(p), expected, "path {p:?}");
    }
}

#[test]
fn bundle_names() {
    assert_eq!(
        app_bundle_name("/Applications/Oto.app/Contents/MacOS/oto"),
        Some("Oto".to_string())
    );
    assert_eq!(app_bundle_name("Oto.app/Contents/MacOS/oto"), Some("Oto".to_string()));
    assert_eq!(app_bundle_name("/Contents/MacOS/oto"), None);
    assert_eq!(app_bundle_name("/X.app.app/Contents/MacOS/oto"), Some("X".to_string()));
    assert_eq!(app_bundle_name("/../Contents/MacOS/oto"), None);
    for p in [
        "/Applications/Oto.app/Contents/MacOS/oto",
        "/a/b/c/d",
        "a/b/c",
        "./b/c/d",
        "/a//b/./c/d/",
    ] {
        let path = std::path::Path::new(p);
        let expected = path
            .parent()
            .and_then(|x| x.parent())
            .and_then(|x| x.parent())
            .and_then(|x| x.file_name())
            .map(|n| n.to_string_lossy().trim_end_matches(".app").to_string());
        assert_eq!(app_bundle_name(p), expected, "path {p:?}");
    }
}

#[test]
fn bundled_and_display_names() {
    assert!(is_bundled_app(Some("/Applications/Oto.app/Contents/MacOS/oto")));
    assert!(!is_bundled_app(Some("/usr/local/bin/oto")));
    assert!(!is_bundled_app(None));
    assert_eq!(display_name(Some("/Applications/Oto Beta.app/Contents/MacOS/oto")), "Oto Beta");
    assert_eq!(display_name(Some("/x/.app/Contents/MacOS/oto")), "");
    assert_eq!(display_name(Some(".app/Contents/MacOS/oto")), "");
    assert_eq!(display_name(Some("/a.app/Contents/MacOS/")), "Oto");
    assert_eq!(display_name(Some("/usr/local/bin/oto-dev")), "oto-dev");
    assert_eq!(display_name(Some("/")), "oto");
    assert_eq!(display_name(None), "oto");
}

fn authorize_like_std(exe: &str) -> String {
    let exe = std::path::Path::new(exe);
    let mut p = exe;
    while let Some(parent) = p.parent() {
        if parent
            .file_name()
            .is_some_and(|n| n.to_string_lossy().ends_with(".app"))
        {
            return parent.to_string_lossy().into_owned();
        }
        p = parent;
    }
    exe.to_string_lossy().into_owned()
}

#[test]
fn authorize_path_like_std() {
    for p in [
        "/Applications/Oto.app/Contents/MacOS/oto",
        "/Applications/Oto.app//Contents/./MacOS/oto",
        "/Users/me/target/debug/oto",
        "Oto.app/x",
        "./Oto.app/x",
        "/A.app/B.app/Contents/MacOS/oto",
        "/x.app",
        "oto",
        "/",
    ] {
        assert_eq!(path_to_authorize(p), authorize_like_std(p), "path {p:?}");
    }
    assert_eq!(path_to_authorize("/Applications/Oto.app/Contents/MacOS/oto"), "/Applications/Oto.app");
}

#[test]
fn component_ends_mark_each_component() {
    let (cs, es) = components_with_ends("/ab//c/");
    assert_eq!(cs, vec!["ab", "c"]);
    assert_eq!(es, vec![3, 6]);
}
