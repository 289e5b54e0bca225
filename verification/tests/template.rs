use zitefy::models::materialize::{
    after_first_render, copy_dir_all, locate_template, store_after_copy, CopyStep, DirEntry,
    MaterializeError,
};
use zitefy::models::site::Site;
use zitefy::models::template::{
    descriptor_from, descriptor_path, parse_descriptor, update_template_in_db, DescriptorFields,
    SyncError, Template, TemplateMetadata, TemplateStore,
};
use zitefy::services::preview::{AssemblyError, Preview, RenderError};

fn s(text: &str) -> String {
    text.to_string()
}

fn descriptor(name: &str, author: &str) -> TemplateMetadata {
    TemplateMetadata {
        name: s(name),
        author: s(author),
        time: s("2024-01-01"),
        author_link: s("https://example.org"),
        category: s("personal"),
    }
}

fn candidate(name: &str, author: &str, dir: &str) -> Template {
    let plan = Template::build_preview(dir);
    Template::from_metadata(descriptor(name, author), dir, plan.targets, format!("id-of-{}", name))
}

fn with_id(mut template: Template, id: &str) -> Template {
    template.id = s(id);
    template
}

fn entry(path: &[&str], is_dir: bool) -> DirEntry {
    DirEntry { path: path.iter().map(|p| p.to_string()).collect(), is_dir }
}

fn targets(steps: &[CopyStep]) -> Vec<String> {
    steps.iter().map(|step| step.to.clone()).collect()
}

fn template_tree() -> Vec<DirEntry> {
    vec![
        entry(&["index.html"], false),
        entry(&["styles"], true),
        entry(&["styles", "styles.css"], false),
        entry(&["js"], true),
        entry(&["js", "script.js"], false),
        entry(&["resources"], true),
        entry(&["resources", "logo.png"], false),
        entry(&["previews"], true),
        entry(&["previews", "mobile.png"], false),
        entry(&["previews", "desktop.png"], false),
    ]
}

#[test]
fn record_is_built_from_the_descriptor() {
    assert_eq!(descriptor_path("/t/one"), "/t/one/metadata.json");
    let template = candidate("One", "ann", "/t/one");
    assert_eq!(template.id, "id-of-One");
    assert_eq!(template.name, "One");
    assert_eq!(template.author, "ann");
    assert_eq!(template.time, "2024-01-01");
    assert_eq!(template.author_link, "https://example.org");
    assert_eq!(template.category, "personal");
    assert_eq!(template.dir_path, "/t/one");
    assert_eq!(template.previews.mobile, "/t/one/previews/mobile.png");
    assert_eq!(template.previews.desktop, "/t/one/previews/desktop.png");
    assert_eq!(template.get_preview(true), "/t/one/previews/mobile.png");
    assert_eq!(template.get_preview(false), "/t/one/previews/desktop.png");
}

#[test]
fn template_preview_uses_default_bindings() {
    let plan = Template::build_preview("/t/one");
    assert_eq!(plan.previews_dir, "/t/one/previews");
    assert_eq!(plan.command.program, "bun");
    assert_eq!(
        plan.command.args,
        vec![
            s("run"),
            s("scripts/builder.js"),
            s("/t/one/index.html"),
            s("/t/one/styles/styles.css"),
            s("/t/one/js/script.js"),
            s("scripts/default.json"),
        ]
    );
    assert_eq!(plan.targets.mobile, "/t/one/previews/mobile.png");
    assert_eq!(plan.targets.desktop, "/t/one/previews/desktop.png");
    let sources = Template::source_paths("/t/one");
    assert_eq!(sources.html, "/t/one/index.html");
    assert_eq!(sources.css, "/t/one/styles/styles.css");
    assert_eq!(sources.js, "/t/one/js/script.js");
}

#[test]
fn upsert_inserts_then_replaces() {
    let mut store = TemplateStore::new();
    assert_eq!(store.len(), 0);
    store.upsert(with_id(candidate("One", "ann", "/t/one"), "id-1"));
    assert_eq!(store.len(), 1);
    store.upsert(with_id(candidate("One", "bob", "/t/uno"), "id-2"));
    assert_eq!(store.len(), 1);
    let stored = store.get("One").expect("stored under its name");
    assert_eq!(stored.author, "bob");
    assert_eq!(stored.dir_path, "/t/uno");
    assert_eq!(stored.previews.mobile, "/t/uno/previews/mobile.png");
    assert_eq!(stored.id, "id-1");
    assert!(store.get("Two").is_none());
}

#[test]
fn tick_twice_makes_no_duplicates() {
    let scans = vec![
        Ok(with_id(candidate("One", "ann", "/t/one"), "id-1")),
        Ok(with_id(candidate("Two", "bob", "/t/two"), "id-2")),
    ];
    let mut store = TemplateStore::new();
    assert!(store.sync_tick(&scans).is_empty());
    assert_eq!(store.len(), 2);
    let first = store.get("One").expect("stored").duplicate();
    assert!(store.sync_tick(&scans).is_empty());
    assert_eq!(store.len(), 2);
    let again = store.get("One").expect("stored");
    assert_eq!(again.id, first.id);
    assert_eq!(again.author, first.author);
    assert_eq!(again.dir_path, first.dir_path);
    assert_eq!(store.get("Two").expect("stored").author, "bob");
}

#[test]
fn one_bad_directory_does_not_stop_the_others() {
    let scans = vec![
        Ok(candidate("One", "ann", "/t/one")),
        Err(SyncError::MalformedMetadata),
        Ok(candidate("Three", "cy", "/t/three")),
    ];
    let mut store = TemplateStore::new();
    let failures = store.sync_tick(&scans);
    assert_eq!(failures, vec![SyncError::MalformedMetadata]);
    assert_eq!(store.len(), 2);
    assert_eq!(store.get("One").expect("stored").author, "ann");
    assert_eq!(store.get("Three").expect("stored").author, "cy");
}

#[test]
fn every_failure_is_reported_in_order() {
    let scans = vec![
        Err(SyncError::NotFound),
        Err(SyncError::ProcessFailed),
        Ok(candidate("One", "ann", "/t/one")),
        Err(SyncError::IoFailure),
    ];
    let mut store = TemplateStore::new();
    let failures = store.sync_tick(&scans);
    assert_eq!(failures, vec![SyncError::NotFound, SyncError::ProcessFailed, SyncError::IoFailure]);
    assert_eq!(store.len(), 1);
    let nothing: Vec<Result<Template, SyncError>> = Vec::new();
    assert!(store.sync_tick(&nothing).is_empty());
    assert_eq!(store.len(), 1);
}

#[test]
fn same_name_twice_keeps_the_later_directory() {
    let scans = vec![
        Ok(with_id(candidate("One", "ann", "/t/a"), "id-a")),
        Ok(with_id(candidate("One", "bob", "/t/b"), "id-b")),
    ];
    let mut store = TemplateStore::new();
    store.sync_tick(&scans);
    assert_eq!(store.len(), 1);
    let stored = store.get("One").expect("stored");
    assert_eq!(stored.author, "bob");
    assert_eq!(stored.id, "id-a");
}

#[test]
fn failure_kinds_carry_over() {
    assert_eq!(SyncError::from_assembly(&AssemblyError::ProcessFailed(s("x"))), SyncError::ProcessFailed);
    assert_eq!(SyncError::from_assembly(&AssemblyError::EncodingError), SyncError::EncodingFailure);
    assert_eq!(SyncError::from_render(RenderError::IoFailure), SyncError::IoFailure);
    assert_eq!(SyncError::from_render(RenderError::ProcessFailed), SyncError::ProcessFailed);
    assert_eq!(
        MaterializeError::from_assembly(&AssemblyError::ProcessFailed(s("x"))),
        MaterializeError::ProcessFailed
    );
    assert_eq!(MaterializeError::from_assembly(&AssemblyError::EncodingError), MaterializeError::EncodingFailure);
    assert_eq!(MaterializeError::from_render(RenderError::IoFailure), MaterializeError::IoFailure);
    assert_eq!(MaterializeError::from_render(RenderError::ProcessFailed), MaterializeError::ProcessFailed);
}

#[test]
fn template_is_found_by_identity() {
    let mut store = TemplateStore::new();
    store.upsert(with_id(candidate("One", "ann", "/t/one"), "abc"));
    store.upsert(candidate("Two", "bob", "/t/two"));
    assert_eq!(store.find_by_id("abc").expect("stored").name, "One");
    assert!(store.find_by_id("xyz").is_none());
    assert_eq!(locate_template(&store, "abc").expect("stored").name, "One");
    assert_eq!(locate_template(&store, "xyz").err(), Some(MaterializeError::TemplateNotFound));
    assert_eq!(locate_template(&TemplateStore::new(), "abc").err(), Some(MaterializeError::TemplateNotFound));
}

#[test]
fn copy_leaves_out_the_excluded_directory() {
    let plan = copy_dir_all("/t/one", "/s/abc", &template_tree(), Some("previews"));
    assert_eq!(
        targets(&plan),
        vec![
            s("/s/abc"),
            s("/s/abc/index.html"),
            s("/s/abc/styles"),
            s("/s/abc/styles/styles.css"),
            s("/s/abc/js"),
            s("/s/abc/js/script.js"),
            s("/s/abc/resources"),
            s("/s/abc/resources/logo.png"),
        ]
    );
    assert!(plan[0].is_dir);
    assert!(plan[0].relative.is_empty());
    assert_eq!(plan[0].from, "/t/one");
    assert_eq!(plan[3].from, "/t/one/styles/styles.css");
    assert_eq!(plan[3].relative, vec![s("styles"), s("styles.css")]);
    assert!(!plan[3].is_dir);
    assert!(plan[2].is_dir);
}

#[test]
fn copy_without_exclusion_takes_everything() {
    let plan = copy_dir_all("/t/one", "/s/abc", &template_tree(), None);
    assert_eq!(plan.len(), 11);
    assert_eq!(plan[8].to, "/s/abc/previews");
    assert_eq!(plan[10].to, "/s/abc/previews/desktop.png");
}

#[test]
fn only_the_top_level_directory_is_excluded() {
    let tree = vec![
        entry(&["previews"], false),
        entry(&["resources"], true),
        entry(&["resources", "previews"], true),
        entry(&["resources", "previews", "old.png"], false),
    ];
    let plan = copy_dir_all("/t", "/s", &tree, Some("previews"));
    assert_eq!(
        targets(&plan),
        vec![
            s("/s"),
            s("/s/previews"),
            s("/s/resources"),
            s("/s/resources/previews"),
            s("/s/resources/previews/old.png"),
        ]
    );
    assert!(!plan[1].is_dir);
}

#[test]
fn copy_of_an_empty_tree_makes_the_root() {
    let plan = copy_dir_all("/t", "/s", &Vec::new(), Some("previews"));
    assert_eq!(plan.len(), 1);
    assert_eq!(plan[0].from, "/t");
    assert_eq!(plan[0].to, "/s");
    assert!(plan[0].is_dir);
}

#[test]
fn site_is_made_from_template() {
    let mut store = TemplateStore::new();
    store.upsert(with_id(candidate("Portfolio", "ann", "/home/u/.zitefy/templates/portfolio"), "abc"));
    let template = locate_template(&store, "abc").expect("stored");
    let made = template.build_site_at("/home/u", "site1", "u1", &template_tree(), s("2024-03-03T00:00:00+00:00"));
    assert_eq!(made.command.program, "bun");
    assert_eq!(
        made.command.args,
        vec![
            s("run"),
            s("scripts/builder.js"),
            s("/home/u/.zitefy/sites/site1/index.html"),
            s("/home/u/.zitefy/sites/site1/styles/styles.css"),
            s("/home/u/.zitefy/sites/site1/js/script.js"),
            s("scripts/default.json"),
        ]
    );
    assert_eq!(made.site_dir, "/home/u/.zitefy/sites/site1");
    assert_eq!(
        targets(&made.steps),
        vec![
            s("/home/u/.zitefy/sites/site1"),
            s("/home/u/.zitefy/sites/site1/index.html"),
            s("/home/u/.zitefy/sites/site1/styles"),
            s("/home/u/.zitefy/sites/site1/styles/styles.css"),
            s("/home/u/.zitefy/sites/site1/js"),
            s("/home/u/.zitefy/sites/site1/js/script.js"),
            s("/home/u/.zitefy/sites/site1/resources"),
            s("/home/u/.zitefy/sites/site1/resources/logo.png"),
        ]
    );
    assert_eq!(made.steps[7].from, "/home/u/.zitefy/templates/portfolio/resources/logo.png");
    assert!(made.steps.iter().all(|step| step.relative.first().map(|p| p.as_str()) != Some("previews")));
    assert_eq!(made.record.id, Some(s("site1")));
    assert_eq!(made.record.path, "/home/u/.zitefy/sites/site1");
    assert!(made.record.data.is_empty());
    assert_eq!(made.record.metadata.name, "Portfolio");
    assert_eq!(made.record.metadata.category, Some(s("personal")));
    assert_eq!(made.record.metadata.time, "2024-03-03T00:00:00+00:00");
    assert_eq!(made.record.user, "u1");
    assert_eq!(made.previews_dir, "/home/u/.zitefy/sites/site1/previews");
    assert_eq!(made.targets.mobile, "/home/u/.zitefy/sites/site1/previews/mobile.png");
    assert_eq!(made.targets.desktop, "/home/u/.zitefy/sites/site1/previews/desktop.png");
}

#[test]
fn directory_updates_the_store_only_when_it_was_read_and_rendered() {
    let mut store = TemplateStore::new();
    let pair = Preview { mobile: s("/t/one/previews/mobile.png"), desktop: s("/t/one/previews/desktop.png") };
    assert_eq!(update_template_in_db(&mut store, "/t/one", Ok(descriptor("One", "ann")), Ok(pair), s("id-1")), Ok(()));
    assert_eq!(store.len(), 1);
    let stored = store.get("One").expect("stored");
    assert_eq!(stored.dir_path, "/t/one");
    assert_eq!(stored.previews.desktop, "/t/one/previews/desktop.png");
    assert_eq!(stored.id, "id-1");
    assert_eq!(store.find_by_id("id-1").expect("stored with its identity").name, "One");
    assert_eq!(
        update_template_in_db(&mut store, "/t/two", Err(SyncError::MalformedMetadata), Err(SyncError::ProcessFailed), s("id-2")),
        Err(SyncError::MalformedMetadata)
    );
    assert_eq!(
        update_template_in_db(&mut store, "/t/two", Ok(descriptor("Two", "bob")), Err(SyncError::ProcessFailed), s("id-2")),
        Err(SyncError::ProcessFailed)
    );
    let pair = Preview { mobile: s("m"), desktop: s("d") };
    assert_eq!(
        update_template_in_db(&mut store, "/t/two", Err(SyncError::NotFound), Ok(pair), s("id-2")),
        Err(SyncError::NotFound)
    );
    assert_eq!(store.len(), 1);
    assert!(store.get("Two").is_none());
}

#[test]
fn descriptor_is_read_from_json() {
    let document = br#"{
        "name": "Portfolio",
        "author": "ann",
        "category": "personal",
        "author_link": "https://example.org/ann",
        "time": "2024-01-01",
        "extra": 5
    }"#
    .to_vec();
    let declared = parse_descriptor(&document).expect("well-formed");
    assert_eq!(declared.name, "Portfolio");
    assert_eq!(declared.author, "ann");
    assert_eq!(declared.category, "personal");
    assert_eq!(declared.author_link, "https://example.org/ann");
    assert_eq!(declared.time, "2024-01-01");
}

#[test]
fn descriptor_needs_its_four_fields() {
    let minimal = br#"{"name":"n\u00e9","author":"a","category":"c","author_link":"l"}"#.to_vec();
    let declared = parse_descriptor(&minimal).expect("well-formed");
    assert_eq!(declared.name, "n\u{e9}");
    assert_eq!(declared.time, "");
    let cases: Vec<&[u8]> = vec![
        br#"{"author":"a","category":"c","author_link":"l"}"#,
        br#"{"name":"n","category":"c","author_link":"l"}"#,
        br#"{"name":"n","author":"a","author_link":"l"}"#,
        br#"{"name":"n","author":"a","category":"c"}"#,
        br#"{"name":7,"author":"a","category":"c","author_link":"l"}"#,
        br#"{"name":"n","author":"a","category":"c","author_link":"l""#,
        br#"["name","author","category","author_link"]"#,
        b"",
        b"not json",
    ];
    for case in cases {
        assert_eq!(parse_descriptor(&case.to_vec()).err(), Some(SyncError::MalformedMetadata));
    }
}

#[test]
fn descriptor_fields_decide() {
    let all = DescriptorFields {
        name: Some(s("n")),
        author: Some(s("a")),
        category: Some(s("c")),
        author_link: Some(s("l")),
        time: None,
    };
    let declared = descriptor_from(all).expect("complete");
    assert_eq!(declared.name, "n");
    assert_eq!(declared.author, "a");
    assert_eq!(declared.category, "c");
    assert_eq!(declared.author_link, "l");
    assert_eq!(declared.time, "");
    let partial = DescriptorFields {
        name: Some(s("n")),
        author: None,
        category: Some(s("c")),
        author_link: Some(s("l")),
        time: Some(s("t")),
    };
    assert_eq!(descriptor_from(partial).err(), Some(SyncError::MalformedMetadata));
}

#[test]
fn new_site_needs_its_template() {
    let mut store = TemplateStore::new();
    store.upsert(with_id(candidate("Portfolio", "ann", "/t/portfolio"), "abc"));
    let draft = Site::new("site1", "abc", "u1", "/home/u", &store).expect("template is stored");
    assert_eq!(draft.site_id, "site1");
    assert_eq!(draft.site_dir, "/home/u/.zitefy/sites/site1");
    assert_eq!(draft.user_id, "u1");
    assert_eq!(draft.template.name, "Portfolio");
    assert_eq!(draft.template.id, "abc");
    assert_eq!(draft.template.dir_path, "/t/portfolio");
    assert_eq!(
        Site::new("site2", "nope", "u1", "/home/u", &store).err(),
        Some(MaterializeError::TemplateNotFound)
    );
}

#[test]
fn synchronised_template_can_be_used_for_a_site() {
    let mut store = TemplateStore::new();
    let scans = vec![Ok(candidate("Portfolio", "ann", "/t/portfolio"))];
    assert!(store.sync_tick(&scans).is_empty());
    let id = store.get("Portfolio").expect("stored").id.clone();
    assert_eq!(id, "id-of-Portfolio");
    let draft = Site::new("site1", &id, "u1", "/home/u", &store).expect("found by its identity");
    assert_eq!(draft.template.name, "Portfolio");
}

#[test]
fn record_is_stored_only_after_the_copy() {
    let template = with_id(candidate("Portfolio", "ann", "/t/portfolio"), "abc");
    let mut sites: Vec<Site> = Vec::new();
    let failed = template.build_site_at("/home/u", "site1", "u1", &template_tree(), s("t"));
    assert_eq!(store_after_copy(&mut sites, failed, false).err(), Some(MaterializeError::IoFailure));
    assert!(sites.is_empty());
    let made = template.build_site_at("/home/u", "site2", "u1", &template_tree(), s("t"));
    let first = store_after_copy(&mut sites, made, true).expect("the copy succeeded");
    assert_eq!(sites.len(), 1);
    assert_eq!(sites[0].id, Some(s("site2")));
    assert!(sites[0].data.is_empty());
    assert_eq!(first.previews_dir, "/home/u/.zitefy/sites/site2/previews");
    assert_eq!(first.targets.desktop, "/home/u/.zitefy/sites/site2/previews/desktop.png");
    assert_eq!(first.command.args[2], "/home/u/.zitefy/sites/site2/index.html");
    assert_eq!(first.command.args[5], "scripts/default.json");
}

#[test]
fn making_ends_with_the_first_render() {
    let pair = Preview { mobile: s("m"), desktop: s("d") };
    assert_eq!(after_first_render(s("site1"), &Ok(pair)), Ok(s("site1")));
    assert_eq!(
        after_first_render(s("site1"), &Err(RenderError::ProcessFailed)),
        Err(MaterializeError::ProcessFailed)
    );
    assert_eq!(
        after_first_render(s("site1"), &Err(RenderError::IoFailure)),
        Err(MaterializeError::IoFailure)
    );
}

#[test]
fn site_made_now_is_stamped_now() {
    let template = with_id(candidate("Portfolio", "ann", "/t/portfolio"), "abc");
    let made = template
        .build_site("/home/u", "site1", "u1", &template_tree())
        .expect("the clock gives a timestamp");
    assert_eq!(made.site_dir, "/home/u/.zitefy/sites/site1");
    assert_eq!(made.steps.len(), 8);
    assert!(made.record.data.is_empty());
    assert_eq!(made.record.metadata.name, "Portfolio");
    assert_eq!(made.record.metadata.category, Some(s("personal")));
    assert!(made.record.metadata.time.ends_with("+00:00"));
    assert_eq!(made.record.user, "u1");
    assert_eq!(made.targets.mobile, "/home/u/.zitefy/sites/site1/previews/mobile.png");
}

#[test]
fn second_tick_with_fresh_identities_changes_nothing() {
    let mut store = TemplateStore::new();
    let first = vec![
        Ok(with_id(candidate("One", "ann", "/t/one"), "id-1")),
        Err(SyncError::MalformedMetadata),
        Ok(with_id(candidate("Two", "bob", "/t/two"), "id-2")),
    ];
    let second = vec![
        Ok(with_id(candidate("One", "ann", "/t/one"), "id-3")),
        Err(SyncError::MalformedMetadata),
        Ok(with_id(candidate("Two", "bob", "/t/two"), "id-4")),
    ];
    store.sync_tick(&first);
    store.sync_tick(&second);
    assert_eq!(store.len(), 2);
    assert_eq!(store.get("One").expect("stored").id, "id-1");
    assert_eq!(store.get("Two").expect("stored").id, "id-2");
    assert_eq!(store.find_by_id("id-1").expect("stored").name, "One");
    assert!(store.find_by_id("id-3").is_none());
}
