use fungible_token::allowance::{allowance_key, AllowanceRegistry};
use fungible_token::amounts::check_optional;
use fungible_token::error::TokenError;
use fungible_token::ledger::Ledger;
use fungible_token::table::{same_bytes, AmountTable, Entry};

fn id(name: &str) -> Vec<u8> {
    name.as_bytes().to_vec()
}

fn ledger_with(holder: &str, amount: u64) -> Ledger {
    Ledger::from_entries(&vec![Entry { key: id(holder), amount }]).unwrap()
}

#[test]
fn check_optional_defaults_to_zero() {
    assert_eq!(check_optional(None), 0);
    assert_eq!(check_optional(Some(0)), 0);
    assert_eq!(check_optional(Some(17)), 17);
    assert_eq!(check_optional(Some(u64::MAX)), u64::MAX);
}

#[test]
fn same_bytes_compares_byte_by_byte() {
    assert!(same_bytes(&id("alice"), &id("alice")));
    assert!(!same_bytes(&id("alice"), &id("alicf")));
    assert!(!same_bytes(&id("alice"), &id("alic")));
    assert!(!same_bytes(&id("Alice"), &id("alice")));
    assert!(same_bytes(&Vec::new(), &Vec::new()));
}

#[test]
fn table_get_and_insert() {
    let mut table = AmountTable::new();
    assert_eq!(table.get(&id("alice")), None);
    table.insert(id("alice"), 5);
    table.insert(id("bob"), 7);
    assert_eq!(table.get(&id("alice")), Some(5));
    assert_eq!(table.get(&id("bob")), Some(7));
    table.insert(id("alice"), 0);
    assert_eq!(table.get(&id("alice")), Some(0));
    assert_eq!(table.get(&id("bob")), Some(7));
    assert_eq!(table.get(&id("carol")), None);
    assert_eq!(table.to_entries().len(), 2);
    assert_eq!(table.sum(), Some(7));
}

#[test]
fn table_sum_reports_overflow() {
    let mut table = AmountTable::new();
    assert_eq!(table.sum(), Some(0));
    table.insert(id("alice"), u64::MAX);
    assert_eq!(table.sum(), Some(u64::MAX));
    table.insert(id("bob"), 1);
    assert_eq!(table.sum(), None);
    table.insert(id("bob"), 0);
    assert_eq!(table.sum(), Some(u64::MAX));
}

#[test]
fn table_from_entries_later_entry_counts() {
    let entries = vec![
        Entry { key: id("alice"), amount: 1 },
        Entry { key: id("bob"), amount: 2 },
        Entry { key: id("alice"), amount: 3 },
    ];
    let table = AmountTable::from_entries(&entries);
    assert_eq!(table.get(&id("alice")), Some(3));
    assert_eq!(table.get(&id("bob")), Some(2));
    assert_eq!(table.sum(), Some(5));
    let back = table.to_entries();
    assert_eq!(back.len(), 2);
    let again = AmountTable::from_entries(&back);
    assert_eq!(again.get(&id("alice")), Some(3));
    assert_eq!(again.get(&id("bob")), Some(2));
}

#[test]
fn ledger_unknown_account_holds_zero() {
    let ledger = Ledger::new();
    assert_eq!(ledger.balance_of(&id("nobody")), 0);
    assert_eq!(ledger.total_supply(), 0);
}

#[test]
fn ledger_transfer_moves_amount() {
    let mut ledger = ledger_with("alice", 1_000_000);
    assert_eq!(ledger.transfer(id("alice"), id("bob"), 100), Ok(()));
    assert_eq!(ledger.balance_of(&id("alice")), 999_900);
    assert_eq!(ledger.balance_of(&id("bob")), 100);
    assert_eq!(ledger.total_supply(), 1_000_000);
}

#[test]
fn ledger_transfer_whole_balance_leaves_zero_entry() {
    let mut ledger = ledger_with("alice", 40);
    assert_eq!(ledger.transfer(id("alice"), id("bob"), 40), Ok(()));
    assert_eq!(ledger.balance_of(&id("alice")), 0);
    assert_eq!(ledger.balance_of(&id("bob")), 40);
    assert_eq!(ledger.to_entries().len(), 2);
    assert_eq!(ledger.total_supply(), 40);
}

#[test]
fn ledger_transfer_beyond_balance_is_refused() {
    let mut ledger = ledger_with("alice", 50);
    assert_eq!(ledger.transfer(id("alice"), id("bob"), 51), Err(TokenError::InsufficientBalance));
    assert_eq!(ledger.balance_of(&id("alice")), 50);
    assert_eq!(ledger.balance_of(&id("bob")), 0);
    assert_eq!(ledger.to_entries().len(), 1);
    assert_eq!(ledger.transfer(id("bob"), id("alice"), 1), Err(TokenError::InsufficientBalance));
    assert_eq!(ledger.total_supply(), 50);
}

#[test]
fn ledger_transfer_to_self_changes_nothing() {
    let mut ledger = ledger_with("alice", 50);
    assert_eq!(ledger.transfer(id("alice"), id("alice"), 30), Ok(()));
    assert_eq!(ledger.balance_of(&id("alice")), 50);
    assert_eq!(ledger.transfer(id("alice"), id("alice"), 50), Ok(()));
    assert_eq!(ledger.balance_of(&id("alice")), 50);
    assert_eq!(ledger.transfer(id("alice"), id("alice"), 51), Err(TokenError::InsufficientBalance));
    assert_eq!(ledger.balance_of(&id("alice")), 50);
    assert_eq!(ledger.total_supply(), 50);
}

#[test]
fn ledger_transfer_of_zero_succeeds() {
    let mut ledger = Ledger::new();
    assert_eq!(ledger.transfer(id("alice"), id("bob"), 0), Ok(()));
    assert_eq!(ledger.balance_of(&id("alice")), 0);
    assert_eq!(ledger.balance_of(&id("bob")), 0);
    assert_eq!(ledger.total_supply(), 0);
}

#[test]
fn ledger_holds_the_largest_supply() {
    let mut ledger = ledger_with("alice", u64::MAX);
    assert_eq!(ledger.transfer(id("alice"), id("bob"), u64::MAX), Ok(()));
    assert_eq!(ledger.balance_of(&id("alice")), 0);
    assert_eq!(ledger.balance_of(&id("bob")), u64::MAX);
    assert_eq!(ledger.total_supply(), u64::MAX);
}

#[test]
fn ledger_from_entries_rejects_a_sum_beyond_64_bits() {
    let fits = vec![Entry { key: id("alice"), amount: u64::MAX - 1 }, Entry { key: id("bob"), amount: 1 }];
    let ledger = Ledger::from_entries(&fits);
    assert!(ledger.is_some());
    assert_eq!(ledger.unwrap().total_supply(), u64::MAX);
    let too_much = vec![Entry { key: id("alice"), amount: u64::MAX }, Entry { key: id("bob"), amount: 1 }];
    assert!(Ledger::from_entries(&too_much).is_none());
}

#[test]
fn allowance_key_is_length_prefixed() {
    let key = allowance_key(&id("ab"), &id("c"));
    assert_eq!(key, vec![2u8, 0, 0, 0, 0, 0, 0, 0, b'a', b'b', b'c']);
    let empty = allowance_key(&Vec::new(), &Vec::new());
    assert_eq!(empty, vec![0u8; 8]);
}

#[test]
fn allowance_key_tells_pairs_apart() {
    assert_ne!(allowance_key(&id("ab"), &id("c")), allowance_key(&id("a"), &id("bc")));
    assert_ne!(allowance_key(&id("alice"), &id("bob")), allowance_key(&id("bob"), &id("alice")));
    assert_ne!(allowance_key(&id(""), &id("ab")), allowance_key(&id("ab"), &id("")));
    assert_eq!(allowance_key(&id("alice"), &id("bob")), allowance_key(&id("alice"), &id("bob")));
}

#[test]
fn allowance_set_replaces_and_keeps_pairs_apart() {
    let mut registry = AllowanceRegistry::new();
    assert_eq!(registry.allowance_of(&id("alice"), &id("bob")), 0);
    registry.set_allowance(&id("alice"), &id("bob"), 100);
    registry.set_allowance(&id("alice"), &id("bob"), 30);
    assert_eq!(registry.allowance_of(&id("alice"), &id("bob")), 30);
    assert_eq!(registry.allowance_of(&id("bob"), &id("alice")), 0);
    registry.set_allowance(&id("a"), &id("bc"), 7);
    assert_eq!(registry.allowance_of(&id("a"), &id("bc")), 7);
    assert_eq!(registry.allowance_of(&id("ab"), &id("c")), 0);
    let back = AllowanceRegistry::from_entries(&registry.to_entries());
    assert_eq!(back.allowance_of(&id("alice"), &id("bob")), 30);
    assert_eq!(back.allowance_of(&id("a"), &id("bc")), 7);
}

#[test]
fn consume_moves_amount_and_lowers_allowance() {
    let mut ledger = ledger_with("alice", 1_000);
    let mut registry = AllowanceRegistry::new();
    registry.set_allowance(&id("alice"), &id("bob"), 300);
    assert_eq!(registry.consume(&mut ledger, id("alice"), &id("bob"), id("carol"), 120), Ok(()));
    assert_eq!(ledger.balance_of(&id("alice")), 880);
    assert_eq!(ledger.balance_of(&id("carol")), 120);
    assert_eq!(ledger.balance_of(&id("bob")), 0);
    assert_eq!(registry.allowance_of(&id("alice"), &id("bob")), 180);
    assert_eq!(ledger.total_supply(), 1_000);
}

#[test]
fn consume_tests_allowance_before_balance() {
    let mut ledger = ledger_with("alice", 10);
    let mut registry = AllowanceRegistry::new();
    registry.set_allowance(&id("alice"), &id("bob"), 20);
    assert_eq!(
        registry.consume(&mut ledger, id("alice"), &id("bob"), id("bob"), 21),
        Err(TokenError::InsufficientAllowance)
    );
    assert_eq!(
        registry.consume(&mut ledger, id("alice"), &id("bob"), id("bob"), 11),
        Err(TokenError::InsufficientBalance)
    );
    assert_eq!(ledger.balance_of(&id("alice")), 10);
    assert_eq!(ledger.balance_of(&id("bob")), 0);
    assert_eq!(registry.allowance_of(&id("alice"), &id("bob")), 20);
    assert_eq!(registry.consume(&mut ledger, id("alice"), &id("bob"), id("bob"), 10), Ok(()));
    assert_eq!(ledger.balance_of(&id("alice")), 0);
    assert_eq!(ledger.balance_of(&id("bob")), 10);
    assert_eq!(registry.allowance_of(&id("alice"), &id("bob")), 10);
}

#[test]
fn consume_back_to_the_owner_spends_allowance_only() {
    let mut ledger = ledger_with("alice", 10);
    let mut registry = AllowanceRegistry::new();
    registry.set_allowance(&id("alice"), &id("bob"), 5);
    assert_eq!(registry.consume(&mut ledger, id("alice"), &id("bob"), id("alice"), 4), Ok(()));
    assert_eq!(ledger.balance_of(&id("alice")), 10);
    assert_eq!(registry.allowance_of(&id("alice"), &id("bob")), 1);
}

#[test]
fn second_draw_on_a_spent_allowance_names_the_error() {
    let mut ledger = ledger_with("alice", 1_000_000);
    let mut registry = AllowanceRegistry::new();
    assert_eq!(ledger.transfer(id("alice"), id("bob"), 100), Ok(()));
    assert_eq!(ledger.balance_of(&id("alice")), 999_900);
    assert_eq!(ledger.balance_of(&id("bob")), 100);
    registry.set_allowance(&id("alice"), &id("bob"), 100);
    assert_eq!(registry.consume(&mut ledger, id("alice"), &id("bob"), id("bob"), 100), Ok(()));
    assert_eq!(ledger.balance_of(&id("alice")), 999_800);
    assert_eq!(ledger.balance_of(&id("bob")), 200);
    assert_eq!(registry.allowance_of(&id("alice"), &id("bob")), 0);
    assert_eq!(
        registry.consume(&mut ledger, id("alice"), &id("bob"), id("bob"), 100),
        Err(TokenError::InsufficientAllowance)
    );
    assert_eq!(ledger.balance_of(&id("alice")), 999_800);
    assert_eq!(ledger.balance_of(&id("bob")), 200);
    assert_eq!(registry.allowance_of(&id("alice"), &id("bob")), 0);
    assert_eq!(ledger.total_supply(), 1_000_000);
}
