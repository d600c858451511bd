use resource_manager::ascii::{str_eq, str_eq_ignore_case};
use resource_manager::developer::{parse_role, Role};
use resource_manager::manager::{DeleteOutcome, DeveloperManager, UpdateOutcome};

fn skills(items: &[&str]) -> Vec<String> {
    items.iter().map(|s| s.to_string()).collect()
}

#[test]
fn created_ids_are_pairwise_distinct() {
    let mut m = DeveloperManager::new();
    let mut ids = Vec::new();
    for i in 0..10 {
        let d = m.create(format!("dev-{}", i));
        ids.push(d.id);
    }
    for i in 0..ids.len() {
        for j in 0..ids.len() {
            if i != j {
                assert_ne!(ids[i], ids[j]);
            }
        }
    }
}

#[test]
fn create_sets_defaults() {
    let mut m = DeveloperManager::new();
    let d = m.create("Alice".to_string());
    assert_eq!(d.name, "Alice");
    assert_eq!(d.role, Role::Unknown);
    assert!(d.skills.is_empty());
    assert_eq!(m.read_all().len(), 1);
    assert_eq!(m.read_all()[0].name, "Alice");
}

#[test]
fn update_with_no_fields_leaves_record_unchanged() {
    let mut m = DeveloperManager::new();
    let d = m.create("Alice".to_string());
    let id = d.id;
    let r = m.update(id, None, Some(Role::DevOps), Some(skills(&["Go", "SQL"])));
    assert_eq!(r, UpdateOutcome::Updated);

    let r = m.update(id, None, None, None);
    assert_eq!(r, UpdateOutcome::Updated);
    let all = m.read_all();
    assert_eq!(all.len(), 1);
    assert_eq!(all[0].id, id);
    assert_eq!(all[0].name, "Alice");
    assert_eq!(all[0].role, Role::DevOps);
    assert_eq!(all[0].skills, skills(&["Go", "SQL"]));
}

#[test]
fn update_unknown_id_is_not_found_and_changes_nothing() {
    let mut m = DeveloperManager::new();
    let d = m.create("Alice".to_string());
    let unknown = d.id + 1;
    let r = m.update(
        unknown,
        Some("Mallory".to_string()),
        Some(Role::Backend),
        Some(skills(&["Go"])),
    );
    assert_eq!(r, UpdateOutcome::NotFound);
    let all = m.read_all();
    assert_eq!(all.len(), 1);
    assert_eq!(all[0].name, "Alice");
    assert_eq!(all[0].role, Role::Unknown);
    assert!(all[0].skills.is_empty());
}

#[test]
fn update_merges_only_supplied_fields() {
    let mut m = DeveloperManager::new();
    let d = m.create("Alice".to_string());
    let r = m.update(d.id, None, Some(Role::Frontend), None);
    assert_eq!(r, UpdateOutcome::Updated);
    assert_eq!(m.read_all()[0].name, "Alice");
    assert_eq!(m.read_all()[0].role, Role::Frontend);
    assert!(m.read_all()[0].skills.is_empty());

    let r = m.update(d.id, Some("Alicia".to_string()), None, Some(skills(&["Rust"])));
    assert_eq!(r, UpdateOutcome::Updated);
    assert_eq!(m.read_all()[0].name, "Alicia");
    assert_eq!(m.read_all()[0].role, Role::Frontend);
    assert_eq!(m.read_all()[0].skills, skills(&["Rust"]));
}

#[test]
fn delete_twice_reports_deleted_then_not_found() {
    let mut m = DeveloperManager::new();
    let a = m.create("Alice".to_string());
    let b = m.create("Bob".to_string());
    assert_eq!(m.read_all().len(), 2);

    let first = m.delete(b.id);
    assert_eq!(first, DeleteOutcome::Deleted);
    assert_eq!(m.read_all().len(), 1);
    assert_eq!(m.read_all()[0].id, a.id);

    let second = m.delete(b.id);
    assert_eq!(second, DeleteOutcome::NotFound);
    assert_eq!(m.read_all().len(), 1);
}

#[test]
fn delete_on_empty_manager_is_not_found() {
    let mut m = DeveloperManager::new();
    assert_eq!(m.delete(7), DeleteOutcome::NotFound);
    assert!(m.read_all().is_empty());
}

#[test]
fn read_by_skill_matches_case_insensitively() {
    let mut m = DeveloperManager::new();
    let a = m.create("Alice".to_string());
    let b = m.create("Bob".to_string());
    let c = m.create("Carol".to_string());
    m.update(a.id, None, None, Some(skills(&["Go", "SQL"])));
    m.update(b.id, None, None, Some(skills(&["rust"])));
    m.update(c.id, None, None, Some(skills(&["GO"])));

    let found = m.read_by_skill("go");
    assert_eq!(found.len(), 2);
    assert_eq!(found[0].name, "Alice");
    assert_eq!(found[1].name, "Carol");

    let found = m.read_by_skill("RUST");
    assert_eq!(found.len(), 1);
    assert_eq!(found[0].name, "Bob");

    let found = m.read_by_skill("java");
    assert!(found.is_empty());
}

#[test]
fn read_by_skill_on_empty_manager_is_empty() {
    let m = DeveloperManager::new();
    assert!(m.read_by_skill("go").is_empty());
}

#[test]
fn scenario_alice_bob() {
    let mut m = DeveloperManager::new();
    let alice = m.create("Alice".to_string());
    let bob = m.create("Bob".to_string());

    let all = m.read_all();
    assert_eq!(all.len(), 2);
    assert_eq!(all[0].name, "Alice");
    assert_eq!(all[1].name, "Bob");

    let r = m.update(alice.id, None, Some(Role::Backend), None);
    assert_eq!(r, UpdateOutcome::Updated);
    let all = m.read_all();
    assert_eq!(all[0].name, "Alice");
    assert_eq!(all[0].role, Role::Backend);
    assert_eq!(all[1].name, "Bob");
    assert_eq!(all[1].role, Role::Unknown);

    assert_eq!(m.delete(bob.id), DeleteOutcome::Deleted);
    let all = m.read_all();
    assert_eq!(all.len(), 1);
    assert_eq!(all[0].name, "Alice");

    assert_eq!(m.delete(bob.id), DeleteOutcome::NotFound);
}

#[test]
fn role_parsing_is_exact_and_unknown_maps_to_none() {
    assert_eq!(parse_role("Frontend"), Some(Role::Frontend));
    assert_eq!(parse_role("Backend"), Some(Role::Backend));
    assert_eq!(parse_role("Fullstack"), Some(Role::Fullstack));
    assert_eq!(parse_role("DevOps"), Some(Role::DevOps));
    assert_eq!(parse_role("frontend"), None);
    assert_eq!(parse_role("devops"), None);
    assert_eq!(parse_role(""), None);
    assert_eq!(parse_role("Manager"), None);
}

#[test]
fn exact_string_comparison() {
    assert!(str_eq("Frontend", "Frontend"));
    assert!(!str_eq("Frontend", "frontend"));
    assert!(str_eq("", ""));
    assert!(!str_eq("a", "ab"));
}

#[test]
fn ascii_case_insensitive_comparison() {
    assert!(str_eq_ignore_case("Go", "go"));
    assert!(str_eq_ignore_case("gO", "Go"));
    assert!(str_eq_ignore_case("", ""));
    assert!(str_eq_ignore_case("Ferris", "fErRiS"));
    assert!(!str_eq_ignore_case("go", "gone"));
    assert!(!str_eq_ignore_case("go", "ho"));
    assert!(!str_eq_ignore_case("", "a"));
    assert!(str_eq_ignore_case("grüß", "GRüSS") == false);
    assert!(str_eq_ignore_case("grüß", "GRüß"));
}
