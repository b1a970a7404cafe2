use mini_term::titles::{choose_title, ProjectTitles};

fn strings(v: &[&str]) -> Vec<String> {
    v.iter().map(|s| s.to_string()).collect()
}

#[test]
fn project_titles_insert_get_remove() {
    let mut t = ProjectTitles::new();
    assert_eq!(t.get("p1"), None);
    t.insert("p1".to_string(), "alpha".to_string());
    t.insert("p2".to_string(), "beta".to_string());
    assert_eq!(t.get("p1"), Some(&"alpha".to_string()));
    t.insert("p1".to_string(), "gamma".to_string());
    assert_eq!(t.get("p1"), Some(&"gamma".to_string()));
    assert_eq!(t.get("p2"), Some(&"beta".to_string()));
    t.remove("p1");
    assert_eq!(t.get("p1"), None);
    assert_eq!(t.get("p2"), Some(&"beta".to_string()));
    t.remove("absent");
    let mut vals = t.values();
    vals.sort();
    assert_eq!(vals, strings(&["beta"]));
    t.clear();
    assert_eq!(t.get("p2"), None);
    assert!(t.values().is_empty());
}

#[test]
fn values_one_per_project() {
    let mut t = ProjectTitles::new();
    t.insert("a".to_string(), "x".to_string());
    t.insert("b".to_string(), "y".to_string());
    t.insert("a".to_string(), "z".to_string());
    let mut vals = t.values();
    vals.sort();
    assert_eq!(vals, strings(&["y", "z"]));
}

#[test]
fn existing_title_is_kept() {
    let mut t = ProjectTitles::new();
    t.insert("p".to_string(), "mini(3)".to_string());
    assert_eq!(choose_title("mini", "p", &t, &strings(&["mini(3)", "mini"])), "mini(3)");
    assert_eq!(choose_title("other", "p", &t, &[]), "mini(3)");
}

#[test]
fn free_base_name_is_used() {
    let t = ProjectTitles::new();
    assert_eq!(choose_title("mini", "p", &t, &[]), "mini");
    assert_eq!(choose_title("mini", "p", &t, &strings(&["mini(1)", "other"])), "mini");
}

#[test]
fn taken_base_name_gets_first_free_suffix() {
    let t = ProjectTitles::new();
    assert_eq!(choose_title("mini", "p", &t, &strings(&["mini"])), "mini(1)");
    assert_eq!(choose_title("mini", "p", &t, &strings(&["mini", "mini(1)"])), "mini(2)");
    assert_eq!(choose_title("mini", "p", &t, &strings(&["mini(1)", "mini", "mini(1)"])), "mini(2)");
    assert_eq!(choose_title("mini", "p", &t, &strings(&["mini", "mini(2)"])), "mini(1)");
}

#[test]
fn suffix_goes_past_nine() {
    let t = ProjectTitles::new();
    let mut open = strings(&["w"]);
    for k in 1..=10 {
        open.push(format!("w({k})"));
    }
    assert_eq!(choose_title("w", "p", &t, &open), "w(11)");
}

#[test]
fn non_ascii_names() {
    let t = ProjectTitles::new();
    assert_eq!(choose_title("项目", "p", &t, &strings(&["项目"])), "项目(1)");
}

#[test]
fn chosen_title_is_never_open_for_new_project() {
    let t = ProjectTitles::new();
    let open = strings(&["a", "a(1)", "a(3)", "b"]);
    let title = choose_title("a", "new", &t, &open);
    assert!(!open.contains(&title));
    assert_eq!(title, "a(2)");
}
