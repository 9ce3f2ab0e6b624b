use std::path::{Path, PathBuf};
use webview_bridge::init::{
    dependency_at, dependency_version, join, output_path_of, path_is_absolute,
    resolve_tauri_path, text_or, Init, InitError, Scaffold, TemplateFile, VersionMetadata,
};

fn metadata() -> VersionMetadata {
    VersionMetadata { tauri: "1.2.3".to_string(), tauri_build: "4.5.6".to_string() }
}

fn file(path: &str, contents: &[u8]) -> TemplateFile {
    TemplateFile { path: path.to_string(), contents: contents.to_vec() }
}

fn pairs(data: &[(String, String)]) -> Vec<(&str, &str)> {
    data.iter().map(|(name, value)| (name.as_str(), value.as_str())).collect()
}

fn resolve_with_std(path: &str, crate_name: &str) -> PathBuf {
    let path = Path::new(path);
    if path.is_absolute() {
        path.join(crate_name)
    } else {
        PathBuf::from("..").join(path).join(crate_name)
    }
}

#[test]
fn nothing_chosen_gives_the_defaults() {
    let init = Init::new();
    assert_eq!(init.target_directory(), ".");
    assert!(init.writes(false));
    assert!(!init.writes(true));
    let data = init.data(&metadata());
    assert_eq!(
        pairs(&data),
        vec![
            ("tauri_dep", "{ version = \"1.2.3\" }"),
            ("tauri_build_dep", "{ version = \"4.5.6\" }"),
            ("dist_dir", "../dist"),
            ("dev_path", "http://localhost:4000"),
            ("app_name", "Tauri App"),
            ("window_title", "Tauri"),
        ]
    );
    assert_eq!(Init::default().target_directory(), ".");
}

#[test]
fn each_choice_shows_in_the_data() {
    let init = Init::new()
        .force()
        .directory("/work/app".to_string())
        .tauri_path("../tauri".to_string())
        .app_name("Notes".to_string())
        .window_title("My Notes".to_string())
        .dist_dir("../build".to_string())
        .dev_path("http://localhost:3000".to_string());
    assert_eq!(init.target_directory(), "/work/app");
    assert!(init.writes(true));
    assert!(init.writes(false));
    let data = init.data(&metadata());
    assert_eq!(
        pairs(&data),
        vec![
            ("tauri_dep", "{  path = \"../../tauri/core/tauri\" }"),
            ("tauri_build_dep", "{  path = \"../../tauri/core/tauri-build\" }"),
            ("dist_dir", "../build"),
            ("dev_path", "http://localhost:3000"),
            ("app_name", "Notes"),
            ("window_title", "My Notes"),
        ]
    );
}

#[test]
fn a_checkout_is_found_as_the_standard_library_finds_it() {
    for path in ["/opt/tauri", "/", "tauri", "../tauri", "a/b/", "", "./x", "//x"] {
        for name in ["core/tauri", "core/tauri-build"] {
            assert_eq!(
                Path::new(&resolve_tauri_path(path, name)),
                resolve_with_std(path, name).as_path(),
                "{} {}",
                path,
                name
            );
            assert_eq!(
                resolve_tauri_path(path, name),
                resolve_with_std(path, name).to_str().unwrap(),
                "{} {}",
                path,
                name
            );
        }
    }
    assert_eq!(resolve_tauri_path("/opt/tauri", "core/tauri"), "/opt/tauri/core/tauri");
    assert_eq!(resolve_tauri_path("tauri", "core/tauri"), "../tauri/core/tauri");
}

#[test]
fn joining_follows_the_standard_library() {
    for (base, part) in
        [("a", "b"), ("a/", "b"), ("", "b"), ("a", "/b"), ("a", ""), ("/", "b"), ("..", "x/y")]
    {
        assert_eq!(join(base, part), Path::new(base).join(part).to_str().unwrap());
        assert_eq!(path_is_absolute(base), Path::new(base).is_absolute());
    }
    assert_eq!(join("a", "b"), "a/b");
    assert_eq!(join("a/", "b"), "a/b");
    assert_eq!(join("a", "/b"), "/b");
    assert!(path_is_absolute("/x"));
    assert!(!path_is_absolute("x/"));
    assert!(!path_is_absolute(""));
}

#[test]
fn a_packaged_manifest_is_written_as_toml() {
    let expect = |path: &str| {
        let mut renamed = PathBuf::from(path);
        if renamed.extension().map(|e| e == "crate-manifest").unwrap_or(false) {
            renamed.set_extension("toml");
        }
        renamed.to_str().unwrap().to_string()
    };
    for path in [
        "Cargo.crate-manifest",
        "src-tauri/Cargo.crate-manifest",
        "src-tauri/.crate-manifest",
        ".crate-manifest",
        "crate-manifest",
        "a/b.tar.crate-manifest",
        "a/..crate-manifest",
        "src-tauri/src/main.rs",
        "Cargo.crate-manifest.bak",
        "x.crate-manifestx",
        "",
        "icons/\u{e9}.crate-manifest",
    ] {
        assert_eq!(output_path_of(path), expect(path), "{}", path);
    }
    assert_eq!(output_path_of("src-tauri/Cargo.crate-manifest"), "src-tauri/Cargo.toml");
    assert_eq!(output_path_of("src-tauri/.crate-manifest"), "src-tauri/.crate-manifest");
    assert_eq!(output_path_of("a/b.tar.crate-manifest"), "a/b.tar.toml");
}

#[test]
fn dependencies_are_written_as_inline_tables() {
    assert_eq!(dependency_version("1.0.0-beta.0"), "{ version = \"1.0.0-beta.0\" }");
    assert_eq!(dependency_at("../tauri/core/tauri"), "{  path = \"../tauri/core/tauri\" }");
    let odd = "a \"b\"\\c'd";
    assert_eq!(dependency_at(odd), format!("{{  path = {:?} }}", Path::new(odd)));
    assert_ne!(dependency_at(odd), format!("{{  path = {} }}", odd));
}

#[test]
fn a_choice_wins_over_its_default() {
    assert_eq!(text_or(&None, "fallback"), "fallback");
    assert_eq!(text_or(&Some("chosen".to_string()), "fallback"), "chosen");
    assert_eq!(text_or(&Some(String::new()), "fallback"), "");
}

#[test]
fn an_application_that_is_there_is_kept_unless_forced() {
    let template = vec![file("a.txt", b"{{app_name}}")];
    let kept = Init::new().run(true, &metadata(), &template).unwrap();
    assert!(matches!(kept, Scaffold::Kept));
    let forced = Init::new().force().run(true, &metadata(), &template).unwrap();
    assert!(matches!(forced, Scaffold::Written(files) if files.len() == 1));
    let fresh = Init::new().run(false, &metadata(), &template).unwrap();
    assert!(matches!(fresh, Scaffold::Written(files) if files.len() == 1));
}

#[test]
fn text_is_rendered_and_anything_else_is_copied() {
    let template = vec![
        file("src-tauri/Cargo.crate-manifest", b"tauri = {{{tauri_dep}}}\nname = \"{{app_name}}\"\n"),
        file("src-tauri/icons/icon.png", &[0x89, 0x50, 0xff, 0xfe, 0x00]),
        file("src-tauri/tauri.conf.json", b"{\"title\": \"{{window_title}}\", \"dev\": \"{{{dev_path}}}\", \"dist\": \"{{{dist_dir}}}\", \"b\": {{{tauri_build_dep}}}}"),
        file("plain.txt", b"no placeholders"),
        file("empty", b""),
    ];
    let init = Init::new().app_name("Notes".to_string());
    let written = match init.run(false, &metadata(), &template).unwrap() {
        Scaffold::Written(files) => files,
        Scaffold::Kept => panic!("kept"),
    };
    assert_eq!(written.len(), 5);
    assert_eq!(written[0].path, "src-tauri/Cargo.toml");
    assert_eq!(
        String::from_utf8(written[0].contents.clone()).unwrap(),
        "tauri = { version = \"1.2.3\" }\nname = \"Notes\"\n"
    );
    assert_eq!(written[1].path, "src-tauri/icons/icon.png");
    assert_eq!(written[1].contents, vec![0x89, 0x50, 0xff, 0xfe, 0x00]);
    assert_eq!(written[2].path, "src-tauri/tauri.conf.json");
    assert_eq!(
        String::from_utf8(written[2].contents.clone()).unwrap(),
        "{\"title\": \"Tauri\", \"dev\": \"http://localhost:4000\", \"dist\": \"../dist\", \"b\": { version = \"4.5.6\" }}"
    );
    assert_eq!(written[3].path, "plain.txt");
    assert_eq!(written[3].contents, b"no placeholders".to_vec());
    assert_eq!(written[4].path, "empty");
    assert!(written[4].contents.is_empty());
}

#[test]
fn rendered_values_are_escaped_for_html_unless_tripled() {
    let template = vec![file("t", b"{{app_name}}|{{{app_name}}}")];
    let init = Init::new().app_name("A&B".to_string());
    let written = match init.run(false, &metadata(), &template).unwrap() {
        Scaffold::Written(files) => files,
        Scaffold::Kept => panic!("kept"),
    };
    assert_eq!(String::from_utf8(written[0].contents.clone()).unwrap(), "A&amp;B|A&B");
}

#[test]
fn the_first_text_that_does_not_render_ends_the_work() {
    let template = vec![
        file("good.txt", b"{{app_name}}"),
        file("bad.txt", b"{{#if}}"),
        file("worse.txt", b"{{/each}}"),
    ];
    let failed = Init::new().run(false, &metadata(), &template);
    assert!(matches!(failed, Err(InitError::Render(path)) if path == "bad.txt"));
    let kept = Init::new().run(true, &metadata(), &template);
    assert!(matches!(kept, Ok(Scaffold::Kept)));
}

#[test]
fn an_empty_template_writes_nothing() {
    let written = Init::new().run(false, &metadata(), &Vec::new()).unwrap();
    assert!(matches!(written, Scaffold::Written(files) if files.is_empty()));
}
