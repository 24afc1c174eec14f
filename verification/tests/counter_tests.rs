use counter::codec::decode_record;
use counter::codec::encode_record;
use counter::errors::ProgramError;
use counter::handlers::increment;
use counter::handlers::initialize;
use counter::handlers::Increment;
use counter::handlers::Initialize;
use counter::logs::LogEntry;
use counter::logs::LogKind;
use counter::record::Counter;
use counter::record::Slot;

fn fresh_slot() -> Slot {
    Slot {
        data: None,
        balance: 0,
        writable: true,
        signed: false,
    }
}

fn funded_user(balance: u64) -> Slot {
    Slot {
        data: None,
        balance,
        writable: true,
        signed: true,
    }
}

fn active_slot(count: u64) -> Slot {
    Slot {
        data: Some(encode_record(&Counter { count })),
        balance: 0,
        writable: true,
        signed: false,
    }
}

fn count_of(slot: &Slot) -> u64 {
    decode_record(slot.data.as_ref().expect("slot holds no data").as_slice())
        .expect("slot bytes are not a counter record")
        .count
}

#[test]
fn fresh_initialize_yields_zero() {
    let mut ctx = Initialize {
        counter: fresh_slot(),
        user: funded_user(10),
    };
    let entry = initialize(&mut ctx, 3).expect("initialize failed on a fresh slot");
    assert_eq!(
        entry,
        LogEntry {
            kind: LogKind::Initialized,
            count: 0
        }
    );
    assert_eq!(count_of(&ctx.counter), 0);
    assert_eq!(ctx.user.balance, 7);
}

#[test]
fn initialize_log_message() {
    let mut ctx = Initialize {
        counter: fresh_slot(),
        user: funded_user(1),
    };
    let entry = initialize(&mut ctx, 1).unwrap();
    assert_eq!(entry.message(), "Counter initialized! Current count: 0");
}

#[test]
fn reinitialize_fails_and_preserves_count() {
    let mut ctx = Initialize {
        counter: active_slot(5),
        user: funded_user(10),
    };
    let r = initialize(&mut ctx, 3);
    assert_eq!(r, Err(ProgramError::AllocationConflict));
    assert_eq!(count_of(&ctx.counter), 5);
    assert_eq!(ctx.user.balance, 10);
}

#[test]
fn increment_adds_one() {
    let mut ctx = Increment {
        counter: active_slot(0),
    };
    let entry = increment(&mut ctx).expect("increment failed on an active record");
    assert_eq!(
        entry,
        LogEntry {
            kind: LogKind::Incremented,
            count: 1
        }
    );
    assert_eq!(count_of(&ctx.counter), 1);
}

#[test]
fn increment_reaches_max() {
    let mut ctx = Increment {
        counter: active_slot(u64::MAX - 1),
    };
    let entry = increment(&mut ctx).expect("increment failed one below the maximum");
    assert_eq!(entry.count, u64::MAX);
    assert_eq!(count_of(&ctx.counter), u64::MAX);
}

#[test]
fn increment_at_max_fails_unchanged() {
    let mut ctx = Increment {
        counter: active_slot(u64::MAX),
    };
    let r = increment(&mut ctx);
    assert_eq!(r, Err(ProgramError::CounterOverflow));
    assert_eq!(count_of(&ctx.counter), u64::MAX);
}

#[test]
fn increment_unallocated_fails_without_mutation() {
    let mut ctx = Increment {
        counter: fresh_slot(),
    };
    let r = increment(&mut ctx);
    assert_eq!(r, Err(ProgramError::TypeMismatch));
    assert!(ctx.counter.data.is_none());
}

#[test]
fn increment_corrupt_record_fails() {
    let mut ctx = Increment {
        counter: Slot {
            data: Some(vec![0u8; 16]),
            balance: 0,
            writable: true,
            signed: false,
        },
    };
    let r = increment(&mut ctx);
    assert_eq!(r, Err(ProgramError::TypeMismatch));
    assert_eq!(ctx.counter.data, Some(vec![0u8; 16]));
}

#[test]
fn double_increment_not_idempotent() {
    let mut once = Increment {
        counter: active_slot(7),
    };
    increment(&mut once).unwrap();
    let mut twice = Increment {
        counter: active_slot(7),
    };
    increment(&mut twice).unwrap();
    increment(&mut twice).unwrap();
    assert_eq!(count_of(&once.counter), 8);
    assert_eq!(count_of(&twice.counter), 9);
    assert_ne!(count_of(&once.counter), count_of(&twice.counter));
}

#[test]
fn scenario_two_slots() {
    let mut init = Initialize {
        counter: fresh_slot(),
        user: funded_user(2),
    };
    let entry = initialize(&mut init, 2).expect("initialize failed on slot A");
    assert_eq!(entry.message(), "Counter initialized! Current count: 0");
    assert_eq!(count_of(&init.counter), 0);

    let mut slot_a = Increment {
        counter: init.counter,
    };
    for expected in 1..=3u64 {
        let entry = increment(&mut slot_a).expect("increment failed on slot A");
        assert_eq!(entry.count, expected);
    }
    assert_eq!(count_of(&slot_a.counter), 3);

    let mut slot_b = Increment {
        counter: fresh_slot(),
    };
    assert_eq!(increment(&mut slot_b), Err(ProgramError::TypeMismatch));
    assert_eq!(count_of(&slot_a.counter), 3);
}

#[test]
fn initialize_unsigned_fails() {
    let mut ctx = Initialize {
        counter: fresh_slot(),
        user: Slot {
            data: None,
            balance: 10,
            writable: true,
            signed: false,
        },
    };
    let r = initialize(&mut ctx, 1);
    assert_eq!(r, Err(ProgramError::MissingAuthorization));
    assert!(ctx.counter.data.is_none());
    assert_eq!(ctx.user.balance, 10);
}

#[test]
fn initialize_underfunded_fails() {
    let mut ctx = Initialize {
        counter: fresh_slot(),
        user: funded_user(2),
    };
    let r = initialize(&mut ctx, 3);
    assert_eq!(r, Err(ProgramError::FundingFailure));
    assert!(ctx.counter.data.is_none());
    assert_eq!(ctx.user.balance, 2);
}

#[test]
fn initialize_unwritable_slot_fails() {
    let mut ctx = Initialize {
        counter: Slot {
            writable: false,
            ..fresh_slot()
        },
        user: funded_user(10),
    };
    assert_eq!(initialize(&mut ctx, 1), Err(ProgramError::NotWritable));
    assert!(ctx.counter.data.is_none());
}

#[test]
fn initialize_unwritable_user_fails() {
    let mut ctx = Initialize {
        counter: fresh_slot(),
        user: Slot {
            writable: false,
            ..funded_user(10)
        },
    };
    assert_eq!(initialize(&mut ctx, 1), Err(ProgramError::NotWritable));
}

#[test]
fn initialize_checks_signature_before_slot() {
    // Both the signature and the slot are bad; the authorization failure is
    // surfaced, since it is checked before any account constraint.
    let mut ctx = Initialize {
        counter: active_slot(4),
        user: Slot {
            data: None,
            balance: 10,
            writable: true,
            signed: false,
        },
    };
    assert_eq!(
        initialize(&mut ctx, 1),
        Err(ProgramError::MissingAuthorization)
    );
    assert_eq!(count_of(&ctx.counter), 4);
}

#[test]
fn increment_unwritable_slot_fails() {
    let mut ctx = Increment {
        counter: Slot {
            writable: false,
            ..active_slot(9)
        },
    };
    assert_eq!(increment(&mut ctx), Err(ProgramError::NotWritable));
    assert_eq!(count_of(&ctx.counter), 9);
}
