use hpcd::text::{decimal, same_text};
use hpcd::whitelist::{lookup, CommandError, Operation};

#[test]
fn ls_is_allowed() {
    let op = lookup("ls").unwrap();
    assert_eq!(op, Operation::Ls);
    assert_eq!(op.command(), "ls");
}

#[test]
fn every_table_entry_maps_to_itself() {
    assert_eq!(lookup("ls"), Ok(Operation::Ls));
    assert_eq!(lookup("uname -a"), Ok(Operation::UnameAll));
    assert_eq!(lookup("w"), Ok(Operation::Who));
    for op in [Operation::Ls, Operation::UnameAll, Operation::Who] {
        assert_eq!(lookup(op.command()), Ok(op));
    }
}

#[test]
fn commands_are_the_fixed_literals() {
    assert_eq!(Operation::Ls.command(), "ls");
    assert_eq!(Operation::UnameAll.command(), "uname -a");
    assert_eq!(Operation::Who.command(), "w");
}

#[test]
fn crafted_label_is_rejected() {
    match lookup("ls; rm -rf /") {
        Err(CommandError::NotAllowed(label)) => assert_eq!(label, "ls; rm -rf /"),
        Ok(op) => panic!("accepted as {:?}", op),
    }
}

#[test]
fn near_misses_are_rejected() {
    for label in ["", " ls", "ls ", "LS", "ls\n", "uname", "uname  -a", "uname -a ", "ww", "l*", "$(ls)"] {
        assert_eq!(lookup(label), Err(CommandError::NotAllowed(label.to_string())), "{:?}", label);
    }
}

#[test]
fn same_text_compares_letter_for_letter() {
    assert!(same_text("pong", "pong"));
    assert!(same_text("", ""));
    assert!(!same_text("pong", "PONG"));
    assert!(!same_text("pong", "pong "));
    assert!(!same_text("é", "e"));
}

#[test]
fn refused_label_is_reported_as_it_came() {
    assert_eq!(
        CommandError::NotAllowed("ls; rm -rf /".to_string()).describe(),
        "command not allowed: ls; rm -rf /"
    );
}

#[test]
fn numbers_are_written_in_decimal() {
    assert_eq!(decimal(0), "0");
    assert_eq!(decimal(7), "7");
    assert_eq!(decimal(10), "10");
    assert_eq!(decimal(22), "22");
    assert_eq!(decimal(65536), "65536");
    assert_eq!(decimal(1000000), "1000000");
    assert_eq!(decimal(u32::MAX), "4294967295");
}
