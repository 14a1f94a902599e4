use wg_manager::docs::{
    doc_entry, doc_page, doc_title, join_path_str, md_page_name_of, resolve_pathbuf_under_base,
    safe_doc_path, sort_doc_entries, str_le_chars, DocEntry,
};

#[test]
fn doc_names_with_path_parts_are_refused() {
    assert_eq!(safe_doc_path("/srv/wg/docs", "01-setup"), Some("/srv/wg/docs/01-setup.md".to_string()));
    assert_eq!(safe_doc_path("/srv/wg/docs/", "README"), Some("/srv/wg/docs/README.md".to_string()));
    assert_eq!(safe_doc_path("/srv/wg/docs", "../secret"), None);
    assert_eq!(safe_doc_path("/srv/wg/docs", "a..b"), None);
    assert_eq!(safe_doc_path("/srv/wg/docs", "sub/page"), None);
    assert_eq!(safe_doc_path("/srv/wg/docs", "sub\\page"), None);
}

#[test]
fn joining_paths() {
    assert_eq!(join_path_str("/etc", "wireguard"), "/etc/wireguard");
    assert_eq!(join_path_str("/etc/", "wireguard"), "/etc/wireguard");
    assert_eq!(join_path_str("", "wireguard"), "wireguard");
    assert_eq!(join_path_str("/srv", "/var/lib/db"), "/var/lib/db");
    assert_eq!(resolve_pathbuf_under_base("/srv/wg", "data/wg.db"), "/srv/wg/data/wg.db");
    assert_eq!(resolve_pathbuf_under_base("/srv/wg", "/var/wg.db"), "/var/wg.db");
}

#[test]
fn page_titles() {
    assert_eq!(doc_title("# Setup\n\nText", "01-setup"), "Setup");
    assert_eq!(doc_title("  ## Config ##\r\nmore", "x"), "Config ##");
    assert_eq!(doc_title("Plain title", "x"), "Plain title");
    assert_eq!(doc_title("", "fallback"), "fallback");
}

#[test]
fn markdown_page_names() {
    assert_eq!(md_page_name_of("01-setup.md"), Some("01-setup".to_string()));
    assert_eq!(md_page_name_of("archive.tar.md"), Some("archive.tar".to_string()));
    assert_eq!(md_page_name_of("notes.txt"), None);
    assert_eq!(md_page_name_of(".md"), None);
    assert_eq!(md_page_name_of("README"), None);
}

#[test]
fn entries_from_files() {
    let e = doc_entry("02-config.md", "# 設定\n").unwrap();
    assert_eq!(e.name, "02-config");
    assert_eq!(e.title, "設定");
    let e = doc_entry("03-operation.md", "").unwrap();
    assert_eq!(e.title, "03-operation");
    assert!(doc_entry("image.png", "").is_none());
}

#[test]
fn manual_list_is_sorted_by_name() {
    let mk = |n: &str| DocEntry { name: n.to_string(), title: format!("t{n}") };
    let sorted = sort_doc_entries(vec![mk("WORKER"), mk("03-operation"), mk("01-setup"), mk("README"), mk("02-config")]);
    let names: Vec<String> = sorted.iter().map(|e| e.name.clone()).collect();
    assert_eq!(names, vec!["01-setup", "02-config", "03-operation", "README", "WORKER"]);
    assert_eq!(sorted[0].title, "t01-setup");
    assert!(sort_doc_entries(vec![]).is_empty());
}

#[test]
fn name_order_is_str_order() {
    let c = |s: &str| s.chars().collect::<Vec<char>>();
    assert!(str_le_chars(&c("abc"), &c("abd")));
    assert!(str_le_chars(&c("ab"), &c("abc")));
    assert!(!str_le_chars(&c("abc"), &c("ab")));
    assert!(str_le_chars(&c(""), &c("")));
    assert!(str_le_chars(&c("Z"), &c("a")));
}

#[test]
fn page_html_from_markdown() {
    let (title, html) = doc_page("01-setup", "# Setup\n\n| a | b |\n|---|---|\n| 1 | 2 |\n\n~~old~~\n");
    assert_eq!(title, "Setup");
    assert!(html.contains("<h1>Setup</h1>"));
    assert!(html.contains("<table>"));
    assert!(html.contains("<del>old</del>"));
    let (title, html) = doc_page("empty", "");
    assert_eq!(title, "empty");
    assert_eq!(html, "");
}
