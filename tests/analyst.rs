use c4a_rust_analyst::contests::{Contest, Contests, Contract};
use c4a_rust_analyst::dates::{extract_end_date, is_upcoming, last_date, upcoming_end_date};
use c4a_rust_analyst::inspect::{bytecode_text, contract_name, pragma_in_line, pragma_version};
use c4a_rust_analyst::repos::{contest_repos, is_contest_repo};
use c4a_rust_analyst::scope::{first_links, is_scope_link, scope_contracts, select_scope_links};
use c4a_rust_analyst::text::{contains_part, ends_with_part};

fn strings(v: &[&str]) -> Vec<String> {
    v.iter().map(|s| s.to_string()).collect()
}

#[test]
fn contract_new_keeps_fields() {
    let c = Contract::new("Vault".to_string(), "0x60".to_string(), "^0.8.19".to_string());
    assert_eq!(c.name, "Vault");
    assert_eq!(c.bytecode, "0x60");
    assert_eq!(c.pragma_version, "^0.8.19");
}

#[test]
fn contest_collects_contracts_in_order() {
    let mut contest = Contest::new("2023-05-ajna");
    assert_eq!(contest.name, "2023-05-ajna");
    assert!(contest.contracts.is_empty());
    contest.add_contract(Contract::new("A".to_string(), "1".to_string(), "0.8.0".to_string()));
    contest.add_contract(Contract::new("B".to_string(), "2".to_string(), "0.8.1".to_string()));
    let names: Vec<&str> = contest.contracts.iter().map(|c| c.name.as_str()).collect();
    assert_eq!(names, vec!["A", "B"]);
}

#[test]
fn contests_collect_contests_in_order() {
    let mut all = Contests::new();
    assert!(all.contests.is_empty());
    all.add_contest(Contest::new("2023-01-foo"));
    all.add_contest(Contest::new("2023-02-baz"));
    let names: Vec<&str> = all.contests.iter().map(|c| c.name.as_str()).collect();
    assert_eq!(names, vec!["2023-01-foo", "2023-02-baz"]);
}

#[test]
fn empty_bytecode_is_still_recorded() {
    let mut contest = Contest::new("2023-01-foo");
    let added = contest.record_contract("Vault".to_string(), String::new(), Some("^0.8.19".to_string()));
    assert!(added);
    assert_eq!(contest.contracts.len(), 1);
    assert_eq!(contest.contracts[0].name, "Vault");
    assert_eq!(contest.contracts[0].bytecode, "");
    assert_eq!(contest.contracts[0].pragma_version, "^0.8.19");
}

#[test]
fn missing_pragma_is_not_recorded() {
    let mut contest = Contest::new("2023-01-foo");
    let added = contest.record_contract("Vault".to_string(), "0x60".to_string(), None);
    assert!(!added);
    assert!(contest.contracts.is_empty());
}

#[test]
fn pragma_caret_version() {
    assert_eq!(pragma_in_line("pragma solidity ^0.8.19;"), Some("^0.8.19".to_string()));
}

#[test]
fn pragma_range_version() {
    assert_eq!(pragma_in_line("pragma solidity >=0.8.0 <0.9.0; // x"), Some(">=0.8.0 <0.9.0".to_string()));
}

#[test]
fn pragma_rejects_other_lines() {
    assert_eq!(pragma_in_line("pragma solidity ;"), None);
    assert_eq!(pragma_in_line("pragma solidity ^0.8.19"), None);
    assert_eq!(pragma_in_line("  pragma solidity ^0.8.19;"), None);
    assert_eq!(pragma_in_line("pragma abicoder v2;"), None);
    assert_eq!(pragma_in_line(""), None);
}

#[test]
fn pragma_version_takes_first_pragma_line() {
    let lines = strings(&[
        "// SPDX-License-Identifier: MIT",
        "pragma solidity ^0.8.19;",
        "pragma solidity 0.7.6;",
        "contract Vault {}",
    ]);
    assert_eq!(pragma_version(&lines), Some("^0.8.19".to_string()));
}

#[test]
fn pragma_version_absent() {
    let lines = strings(&["// SPDX-License-Identifier: MIT", "contract Vault {}"]);
    assert_eq!(pragma_version(&lines), None);
    assert_eq!(pragma_version(&Vec::new()), None);
}

#[test]
fn contract_name_strips_directories_and_extension() {
    assert_eq!(contract_name("contracts/Vault.sol"), "Vault");
    assert_eq!(contract_name("Vault.sol"), "Vault");
    assert_eq!(contract_name("src/tokens/Token.t.sol"), "Token");
    assert_eq!(contract_name("src/Plain"), "Plain");
    assert_eq!(contract_name("src/"), "");
}

#[test]
fn bytecode_text_drops_line_breaks() {
    assert_eq!(bytecode_text("0x6080\n6040\n"), "0x60806040");
    assert_eq!(bytecode_text(""), "");
    assert_eq!(bytecode_text("0xabc"), "0xabc");
}

#[test]
fn scope_link_filter() {
    assert!(is_scope_link("contracts/Vault.sol"));
    assert!(!is_scope_link("contracts/libraries/Math.sol"));
    assert!(!is_scope_link("contracts/interfaces/IVault.sol"));
    assert!(!is_scope_link("src/lib/Helper.sol"));
    assert!(!is_scope_link("src/Calibration.sol"));
    assert!(!is_scope_link("contracts/Vault.t"));
    assert!(!is_scope_link("contracts/Vault.sol.md"));
}

#[test]
fn scope_link_filter_is_case_sensitive() {
    assert!(is_scope_link("contracts/MyLib.sol"));
}

#[test]
fn select_scope_links_keeps_order_and_repeats() {
    let rows = vec![
        None,
        Some("contracts/Vault.sol".to_string()),
        Some("contracts/libraries/Math.sol".to_string()),
        Some("README.md".to_string()),
        Some("contracts/Pool.sol".to_string()),
        Some("contracts/Vault.sol".to_string()),
    ];
    assert_eq!(
        select_scope_links(&rows),
        strings(&["contracts/Vault.sol", "contracts/Pool.sol", "contracts/Vault.sol"])
    );
}

#[test]
fn scope_contracts_from_rendered_table() {
    let html = "<table><tr><th>Contract</th><th>SLOC</th></tr>\
        <tr><td><a href=\"x\">contracts/Vault.sol</a></td><td>120</td></tr>\
        <tr><td><a href=\"y\">contracts/interfaces/IVault.sol</a></td><td>20</td></tr>\
        <tr><td>no link</td></tr>\
        <tr><td><a href=\"z\">contracts/Pool.sol</a></td><td><a href=\"w\">other</a></td></tr>\
        </table>";
    assert_eq!(
        scope_contracts(html),
        Some(strings(&["contracts/Vault.sol", "contracts/Pool.sol"]))
    );
}

#[test]
fn end_date_is_last_date() {
    let text = "Starts March 1, 2023 20:00 UTC and ends March 8, 2023 20:00 UTC.";
    assert_eq!(extract_end_date(text), Some(1678305600));
}

#[test]
fn end_date_two_digit_day() {
    assert_eq!(extract_end_date("Ends December 25, 2023 09:05 UTC"), Some(1703495100));
}

#[test]
fn end_date_absent() {
    assert_eq!(extract_end_date("No dates here, only 2023."), None);
    assert_eq!(extract_end_date(""), None);
    assert_eq!(extract_end_date("March 8, 2023 20:00 GMT"), None);
}

#[test]
fn end_date_unparsable_last_match() {
    let text = "Starts March 1, 2023 20:00 UTC and ends February 30, 2023 20:00 UTC.";
    assert_eq!(extract_end_date(text), None);
}

#[test]
fn last_date_reads_last_entry() {
    let v = strings(&["March 1, 2023 20:00 UTC", "March 8, 2023 20:00 UTC"]);
    assert_eq!(last_date(&v), Some(1678305600));
    assert_eq!(last_date(&Vec::new()), None);
    assert_eq!(last_date(&strings(&["March 8, 2023 20:00 UTC", "bad"])), None);
}

#[test]
fn end_equal_to_now_is_past() {
    assert!(!is_upcoming(1678305600, 1678305600));
    assert!(is_upcoming(1678305601, 1678305600));
    assert!(!is_upcoming(1678305599, 1678305600));
}

#[test]
fn upcoming_end_date_filters_by_now() {
    let text = "ends March 8, 2023 20:00 UTC";
    assert_eq!(upcoming_end_date(text, 1678305599), Some(1678305600));
    assert_eq!(upcoming_end_date(text, 1678305600), None);
    assert_eq!(upcoming_end_date("no date", 0), None);
}

#[test]
fn only_2023_repos_are_considered() {
    let names = strings(&["2023-01-foo", "2022-01-bar", "2023-02-baz"]);
    assert_eq!(contest_repos(&names), strings(&["2023-01-foo", "2023-02-baz"]));
    assert!(!is_contest_repo("2022-01-bar"));
    assert!(is_contest_repo("2023-01-foo"));
}

#[test]
fn substring_helpers() {
    assert!(contains_part("abcdef", "cde"));
    assert!(contains_part("abc", ""));
    assert!(!contains_part("ab", "abc"));
    assert!(ends_with_part("Vault.sol", ".sol"));
    assert!(!ends_with_part("Vault.so", ".sol"));
}

#[test]
fn only_first_link_of_a_row_counts() {
    let html = "<table><tr><td><a>README.md</a></td><td><a>contracts/Vault.sol</a></td></tr></table>";
    assert_eq!(scope_contracts(html), Some(Vec::<String>::new()));
}

#[test]
fn first_links_per_row() {
    let rows = vec![
        strings(&["a.sol", "b.sol"]),
        Vec::new(),
        strings(&["c.sol"]),
    ];
    assert_eq!(
        first_links(&rows),
        vec![Some("a.sol".to_string()), None, Some("c.sol".to_string())]
    );
}

#[test]
fn bytecode_text_non_ascii_output() {
    assert_eq!(bytecode_text("é\n0x60\n"), "é0x60");
}
