use oncecell::unsync::OnceCell;

#[test]
fn unsync_works() {
    let mut once: OnceCell<String> = OnceCell::new();
    assert!(once.get().is_none());
    assert!(once.set(String::new()).is_ok());
    assert!(once.set(String::new()).is_err());
    assert!(once.get().is_some());
    assert!(once.get().is_some());
}

#[test]
fn unsync_new_cell_is_empty() {
    let cell: OnceCell<u32> = OnceCell::new();
    assert_eq!(cell.get(), None);
}

#[test]
fn unsync_string_cell_reads_none_twice() {
    let cell: OnceCell<String> = OnceCell::new();
    assert_eq!(cell.get(), None);
    assert_eq!(cell.get(), None);
}

#[test]
fn unsync_write_then_read_then_reject() {
    let mut c: OnceCell<i32> = OnceCell::new();
    assert_eq!(c.get(), None);
    assert_eq!(c.set(5), Ok(()));
    assert_eq!(c.get(), Some(&5));
    assert_eq!(c.set(6), Err(6));
    assert_eq!(c.get(), Some(&5));
}

#[test]
fn unsync_first_write_succeeds_and_is_read_back() {
    let mut cell: OnceCell<String> = OnceCell::new();
    assert_eq!(cell.set(String::from("first")), Ok(()));
    assert_eq!(cell.get(), Some(&String::from("first")));
}

#[test]
fn unsync_rejected_value_comes_back_unchanged() {
    let mut cell: OnceCell<Vec<u8>> = OnceCell::new();
    assert_eq!(cell.set(vec![1, 2, 3]), Ok(()));
    let rejected = cell.set(vec![9, 8, 7, 6]);
    assert_eq!(rejected, Err(vec![9, 8, 7, 6]));
    assert_eq!(cell.get(), Some(&vec![1, 2, 3]));
}

#[test]
fn unsync_rejected_value_keeps_its_allocation() {
    let mut cell: OnceCell<String> = OnceCell::new();
    assert!(cell.set(String::from("kept")).is_ok());
    let offered = String::from("offered");
    let address = offered.as_ptr();
    match cell.set(offered) {
        Ok(()) => panic!("an occupied cell accepted a write"),
        Err(back) => {
            assert_eq!(back, "offered");
            assert_eq!(back.as_ptr(), address);
        }
    }
}

#[test]
fn unsync_repeated_reads_agree() {
    let mut cell: OnceCell<String> = OnceCell::new();
    assert!(cell.set(String::from("value")).is_ok());
    let first = cell.get().unwrap();
    let second = cell.get().unwrap();
    let third = cell.get().unwrap();
    assert_eq!(first, "value");
    assert!(std::ptr::eq(first, second));
    assert!(std::ptr::eq(second, third));
}

#[test]
fn unsync_reads_survive_rejected_writes() {
    let mut cell: OnceCell<u64> = OnceCell::new();
    assert_eq!(cell.set(11), Ok(()));
    for later in 12..20u64 {
        assert_eq!(cell.set(later), Err(later));
        assert_eq!(cell.get(), Some(&11));
    }
}

#[test]
fn unsync_only_the_first_of_many_writes_succeeds() {
    let mut cell: OnceCell<usize> = OnceCell::new();
    let values = vec![40usize, 41, 42, 43, 44, 45, 46, 47];
    let mut accepted = Vec::new();
    for (i, v) in values.iter().enumerate() {
        match cell.set(*v) {
            Ok(()) => accepted.push(i),
            Err(back) => assert_eq!(back, *v),
        }
    }
    assert_eq!(accepted, vec![0]);
    assert_eq!(cell.get(), Some(&40));
}

#[test]
fn unsync_holds_a_unit_value() {
    let mut cell: OnceCell<()> = OnceCell::new();
    assert_eq!(cell.get(), None);
    assert_eq!(cell.set(()), Ok(()));
    assert_eq!(cell.get(), Some(&()));
    assert_eq!(cell.set(()), Err(()));
}

#[test]
fn unsync_holds_an_option() {
    let mut cell: OnceCell<Option<u8>> = OnceCell::new();
    assert_eq!(cell.set(None), Ok(()));
    assert_eq!(cell.get(), Some(&None));
    assert_eq!(cell.set(Some(1)), Err(Some(1)));
    assert_eq!(cell.get(), Some(&None));
}
