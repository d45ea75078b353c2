use atomic_habits::text::{burners_path, habits_path, name_has_bucket, prefix_path, try_prefix_path};

fn utf32(s: &str) -> Vec<u8> {
    s.chars().flat_map(|c| (c as u32).to_le_bytes()).collect()
}

#[test]
fn prefix_path_takes_three_lowercase_letters() {
    let p = prefix_path("Cooking");
    assert_eq!(p, vec![utf32("all_burners"), utf32("coo")]);
}

#[test]
fn prefix_path_matches_hdk_path() {
    let p = prefix_path("Reading");
    let components: Vec<hdk::hash_path::path::Component> = hdk::prelude::Path::from("all_burners.rea").into();
    let expected: Vec<Vec<u8>> = components.into_iter().map(|c| c.into()).collect();
    assert_eq!(p, expected);
}

#[test]
fn prefix_path_is_blind_to_case() {
    assert_eq!(prefix_path("COOKING"), prefix_path("cooking"));
    assert_eq!(prefix_path("CoOk"), prefix_path("cOoK"));
}

#[test]
fn prefix_path_of_a_three_byte_name_is_the_whole_name() {
    assert_eq!(prefix_path("Run"), vec![utf32("all_burners"), utf32("run")]);
}

#[test]
fn prefix_path_keeps_a_two_byte_letter_whole() {
    // 'é' is two bytes in UTF-8, so the first three bytes are "éc".
    assert_eq!(prefix_path("Éclair"), vec![utf32("all_burners"), utf32("éc")]);
}

#[test]
fn prefix_path_of_a_three_byte_character() {
    assert_eq!(prefix_path("€uro"), vec![utf32("all_burners"), utf32("€")]);
}

#[test]
fn short_names_have_no_bucket() {
    assert!(!name_has_bucket("ab"));
    assert!(!name_has_bucket(""));
    assert_eq!(try_prefix_path("ab"), None);
}

#[test]
fn a_character_across_the_third_byte_has_no_bucket() {
    // 'a' is one byte and '€' three, so byte three falls inside '€'.
    assert!(!name_has_bucket("a€x"));
    assert_eq!(try_prefix_path("a€x"), None);
}

#[test]
fn try_prefix_path_agrees_with_prefix_path() {
    assert_eq!(try_prefix_path("Gym time"), Some(prefix_path("Gym time")));
    assert!(name_has_bucket("Gym time"));
}

#[test]
fn listing_paths() {
    assert_eq!(burners_path(), vec![utf32("all_burners")]);
    assert_eq!(habits_path(), vec![utf32("all_habits")]);
}

#[test]
fn names_sharing_a_prefix_share_a_path() {
    assert_eq!(prefix_path("Cooking"), prefix_path("cool beans"));
    assert_ne!(prefix_path("Cooking"), prefix_path("Cycling"));
}

#[test]
fn dots_in_the_bucket_split_the_path() {
    assert_eq!(prefix_path("A.Bc"), vec![utf32("all_burners"), utf32("a"), utf32("b")]);
    assert_eq!(prefix_path("..x"), vec![utf32("all_burners"), utf32("x")]);
}

#[test]
fn shard_like_buckets_stay_plain() {
    assert_eq!(prefix_path("1:#"), vec![utf32("all_burners"), utf32("1:#")]);
}
