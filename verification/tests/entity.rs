use gantry_crane::homeassistant::entity::{normalize_object_id, normalize_unique_id_part};

#[test]
fn test_normalize_object_id() {
    assert_eq!(
        normalize_object_id("docker01-rrnuc / Docker Proxy"),
        "docker01_rrnuc_docker_proxy"
    );
    assert_eq!(normalize_object_id("///"), "unknown");
}

#[test]
fn test_normalize_unique_id_part() {
    assert_eq!(normalize_unique_id_part("/Docker Proxy"), "docker_proxy");
    assert_eq!(normalize_unique_id_part("docker01-rrnuc"), "docker01-rrnuc");
    assert_eq!(normalize_unique_id_part("///"), "unknown");
}

#[test]
fn normalize_empty_and_separator_only_inputs_give_unknown() {
    assert_eq!(normalize_object_id(""), "unknown");
    assert_eq!(normalize_object_id("___"), "unknown");
    assert_eq!(normalize_object_id(" - ! "), "unknown");
    assert_eq!(normalize_unique_id_part(""), "unknown");
    assert_eq!(normalize_unique_id_part("_ _"), "unknown");
    // a dash is kept in a unique-id part
    assert_eq!(normalize_unique_id_part("-"), "-");
}

#[test]
fn normalize_collapses_runs_and_lowercases() {
    assert_eq!(normalize_object_id("__A..B__"), "a_b");
    assert_eq!(normalize_object_id("A--B"), "a_b");
    assert_eq!(normalize_unique_id_part("A--B"), "a--b");
    assert_eq!(normalize_unique_id_part("A _\tB"), "a_b");
    assert_eq!(normalize_object_id("My Container/2"), "my_container_2");
    assert_eq!(normalize_object_id("Grüße"), "gr_e");
    assert_eq!(normalize_unique_id_part("ABC-def_GHI"), "abc-def_ghi");
}

#[test]
fn normalize_trims_slashes_and_underscores() {
    assert_eq!(normalize_object_id("/portainer/"), "portainer");
    assert_eq!(normalize_unique_id_part("//x//"), "x");
    assert_eq!(normalize_object_id("_x_"), "x");
}

#[test]
fn normalization_is_idempotent_on_examples() {
    let inputs = [
        "docker01-rrnuc / Docker Proxy",
        "///",
        "",
        "A--B",
        "__A..B__",
        "Grüße aus Köln",
        "node-1_container-2",
    ];
    for input in inputs {
        let once = normalize_object_id(input);
        assert_eq!(normalize_object_id(&once), once);
        let once = normalize_unique_id_part(input);
        assert_eq!(normalize_unique_id_part(&once), once);
    }
}

#[test]
fn normalized_ids_have_normal_form() {
    let inputs = ["  Hello, World!  ", "a__b", "x-y z", "/", "Ünïcödé"];
    for input in inputs {
        for (id, dash) in [
            (normalize_object_id(input), false),
            (normalize_unique_id_part(input), true),
        ] {
            assert!(!id.is_empty());
            assert!(!id.starts_with('_'));
            assert!(!id.ends_with('_'));
            assert!(!id.contains("__"));
            assert!(id
                .chars()
                .all(|c| c.is_ascii_lowercase() || c.is_ascii_digit() || c == '_' || (dash && c == '-')));
        }
    }
}
