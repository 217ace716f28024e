use grok_build::mcp_promote::{append_promoted_mcp_definitions, promoted_servers_from_scoped};

fn def(name: &str) -> (String, String) {
    (name.to_string(), format!("desc for {name}"))
}

fn names(defs: &[(String, String)]) -> Vec<&str> {
    defs.iter().map(|d| d.0.as_str()).collect()
}

#[test]
fn append_promoted_is_noop_when_empty() {
    let mut defs = vec![def("read_file")];
    append_promoted_mcp_definitions(vec![def("linear__save_issue")], &vec![], &vec![true], &mut defs);
    assert_eq!(defs.len(), 1);
    assert_eq!(defs[0].0, "read_file");
}

#[test]
fn append_promoted_adds_listed_mcp_only() {
    let mut defs = vec![def("read_file"), def("grep")];
    let promote = vec!["linear__save_issue".to_string()];
    append_promoted_mcp_definitions(
        vec![
            def("read_file"),
            def("grep"),
            def("linear__save_issue"),
            def("linear__list_issues"),
            def("github__create_issue"),
        ],
        &promote,
        &vec![true; 5],
        &mut defs,
    );
    assert_eq!(names(&defs), vec!["read_file", "grep", "linear__save_issue"]);
}

#[test]
fn untrusted_project_cannot_promote_another_servers_tools() {
    let scopes = vec!["user".to_string(), "project".to_string()];
    assert_eq!(promoted_servers_from_scoped(&scopes, false), vec![0]);
}

#[test]
fn trusted_project_promote_list_is_kept() {
    let scopes = vec!["project".to_string()];
    assert_eq!(promoted_servers_from_scoped(&scopes, true), vec![0]);
}

#[test]
fn append_promoted_skips_duplicates() {
    let mut defs = vec![def("read_file"), def("linear__save_issue")];
    let promote = vec!["linear__save_issue".to_string()];
    append_promoted_mcp_definitions(vec![def("linear__save_issue")], &promote, &vec![true], &mut defs);
    assert_eq!(defs.len(), 2);
}

#[test]
fn append_promoted_skips_names_the_provider_rejects() {
    let over = format!("linear__{}", "a".repeat(64));
    let ok = format!("lin__{}", "a".repeat(59));
    let mut defs = vec![def("read_file")];
    let promote = vec![over.clone(), ok.clone()];
    append_promoted_mcp_definitions(vec![def(&over), def(&ok)], &promote, &vec![false, true], &mut defs);
    assert_eq!(names(&defs), vec!["read_file", ok.as_str()]);
}

#[test]
fn a_promoted_name_registered_twice_is_added_once() {
    let mut defs = vec![];
    let promote = vec!["a__b".to_string()];
    append_promoted_mcp_definitions(vec![def("a__b"), def("a__b")], &promote, &vec![true, true], &mut defs);
    assert_eq!(names(&defs), vec!["a__b"]);
}
