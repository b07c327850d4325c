use rust_knowledge::config_docs::{
    doc_text, esc, kebab, last_segment, render, render_page, ArgField, ArgRole, BinaryShape,
    ShortFlag, SubcommandShape,
};

#[test]
fn kebab_matches_the_real_flag_and_subcommand_names() {
    for (raw, expected) in [
        ("manifest_path", "manifest-path"),
        ("index_dir", "index-dir"),
        ("rustdoc_scope", "rustdoc-scope"),
        ("prebuilt_rustdoc", "prebuilt-rustdoc"),
        ("source-kind", "source-kind"),
        ("Packages", "packages"),
        ("DumpDocs", "dump-docs"),
        ("Index", "index"),
        ("Search", "search"),
        ("Get", "get"),
        ("Symbol", "symbol"),
        ("Eval", "eval"),
        ("ConfigDocs", "config-docs"),
    ] {
        assert_eq!(kebab(raw), expected, "kebab({raw})");
    }
}

#[test]
fn render_is_stable_and_complete() {
    let html = render();
    for needle in [
        "--manifest-path",
        "--index-dir",
        "dump-docs",
        "config-docs",
        "docs/config-reference.html",
        "RUST_KNOWLEDGE_INDEX_DIR",
        "RUST_KNOWLEDGE_CARGO",
        "&lt;QUERY&gt;",
    ] {
        assert!(html.contains(needle), "page should contain {needle}");
    }
    assert_eq!(html, render());
}

#[test]
fn esc_writes_every_special_character_as_an_entity() {
    assert_eq!(esc("a<b>&\"c'"), "a&lt;b&gt;&amp;&quot;c&#39;");
    assert_eq!(esc("plain"), "plain");
}

#[test]
fn last_segment_takes_the_text_after_the_last_separator() {
    assert_eq!(last_segment("std::path::PathBuf"), "PathBuf");
    assert_eq!(last_segment("bool"), "bool");
    assert_eq!(last_segment("a:::b"), "b");
}

#[test]
fn doc_text_joins_trimmed_lines() {
    let lines = vec!["  first line ".to_string(), "second".to_string()];
    assert_eq!(doc_text(&lines), "first line second");
    assert_eq!(doc_text(&Vec::new()), "");
}

fn field(name: &str, role: ArgRole, ty: &str, optional: bool, default: Option<&str>) -> ArgField {
    ArgField {
        name: name.to_string(),
        role,
        flattened: Vec::new(),
        short: ShortFlag::Absent,
        type_identifier: ty.to_string(),
        optional,
        repeatable: false,
        default: default.map(str::to_string),
        counted: false,
        doc: vec!["Doc.".to_string()],
        env_aliases: Vec::new(),
    }
}

#[test]
fn render_page_lays_out_options_subcommands_and_environment() {
    let mut verbose = field("verbose", ArgRole::Named, "bool", false, Some("false"));
    verbose.short = ShortFlag::FromName;
    let cli = BinaryShape {
        program: "tool".to_string(),
        about: "A <tool>.".to_string(),
        fields: vec![verbose],
        subcommands: Some(vec![SubcommandShape {
            name: "RunIt".to_string(),
            doc: vec!["Runs.".to_string()],
            fields: vec![field("target", ArgRole::Positional, "alloc::string::String", false, None)],
        }]),
    };
    let mcp = BinaryShape {
        program: "server".to_string(),
        about: "Serves.".to_string(),
        fields: vec![field("dir", ArgRole::Named, "std::path::PathBuf", true, None)],
        subcommands: None,
    };
    let mut env_field = field("dir", ArgRole::Named, "std::path::PathBuf", true, None);
    env_field.env_aliases = vec!["TOOL_DIR".to_string()];
    let html = render_page(&cli, &mcp, &vec![env_field]);
    assert!(html.starts_with("<!DOCTYPE html>\n"));
    assert!(html.contains("<h1>tool &amp; server configuration reference</h1>\n"));
    assert!(html.contains(
        "<tr><td class=\"flag\"><code>--verbose</code></td><td>v</td><td>BOOL</td><td>false</td><td></td><td>Doc.</td></tr>\n"
    ));
    assert!(html.contains("<h4 id=\"command-run-it\"><code>tool run-it</code></h4>\n<p>Runs.</p>\n"));
    assert!(html.contains("<p class=\"note\">Usage: <code>tool run-it &lt;TARGET&gt;</code></p>\n"));
    assert!(html.contains(
        "<tr><td class=\"flag\"><code>&lt;TARGET&gt;</code></td><td></td><td>STRING</td><td>\u{2014}</td><td><span class=\"required\">yes</span></td><td>Doc.</td></tr>\n"
    ));
    assert!(html.contains(
        "<tr><td class=\"flag\"><code>--dir</code></td><td></td><td>PATHBUF (optional)</td><td>unset</td><td></td><td>Doc.</td></tr>\n"
    ));
    assert!(html.contains(
        "<tr><td class=\"flag\"><code>TOOL_DIR</code></td><td>both binaries</td><td><code>--index-dir</code></td><td>Doc.</td></tr>\n"
    ));
    assert!(html.ends_with("</body>\n</html>\n"));
}
