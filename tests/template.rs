use teto_pages::template::{render, replace_all, replacen, Substitution};

fn sub(token: &str, value: &str, count: usize) -> Substitution {
    Substitution { token: token.to_string(), value: value.to_string(), count }
}

#[test]
fn replacen_replaces_only_the_first_occurrences() {
    assert_eq!(replacen("a{x}b{x}c{x}", "{x}", "1", 2), "a1b1c{x}");
}

#[test]
fn replacen_with_zero_count_keeps_text() {
    assert_eq!(replacen("a{x}b", "{x}", "1", 0), "a{x}b");
}

#[test]
fn replacen_with_empty_token_keeps_text() {
    assert_eq!(replacen("abc", "", "1", 3), "abc");
}

#[test]
fn replacen_handles_wide_characters() {
    assert_eq!(replacen("é{x}ü{x}", "{x}", "ß", 1), "éßü{x}");
}

#[test]
fn replacen_does_not_overlap_matches() {
    assert_eq!(replacen("aaaa", "aa", "b", 5), "bb");
}

#[test]
fn replace_all_replaces_every_occurrence() {
    assert_eq!(replace_all("{f}-{f}-{f}", "{f}", "fr"), "fr-fr-fr");
}

#[test]
fn render_applies_substitutions_in_order() {
    let subs = vec![sub("{a}", "{b}", 1), sub("{b}", "X", 5)];
    assert_eq!(render("{a}{b}", &subs), "XX");
    let reversed = vec![sub("{b}", "X", 5), sub("{a}", "{b}", 1)];
    assert_eq!(render("{a}{b}", &reversed), "{b}X");
}

#[test]
fn render_with_no_substitution_returns_template() {
    let t = "<p>{{name}} and {{name}}</p>";
    assert_eq!(render(t, &Vec::new()), t);
}

#[test]
fn render_again_after_substitution_changes_nothing() {
    let subs = vec![sub("{{name}}", "Ann", 2)];
    let once = render("<p>{{name}} and {{name}}</p>", &subs);
    assert_eq!(once, "<p>Ann and Ann</p>");
    assert_eq!(render(&once, &subs), once);
}

#[test]
fn render_ignores_absent_token() {
    let subs = vec![sub("{{missing}}", "x", 1)];
    assert_eq!(render("plain", &subs), "plain");
}
