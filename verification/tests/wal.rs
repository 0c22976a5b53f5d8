use two_phase_commit::wal::{wal_file_name, wal_line, WalEntry};

#[test]
fn wal_line_prepared() {
    assert_eq!(
        wal_line(1700000000123, 2, WalEntry::Prepared),
        b"[1700000000123] Participant 2: Prepared\n".to_vec()
    );
}

#[test]
fn wal_line_commit_and_rollback() {
    assert_eq!(wal_line(0, 0, WalEntry::Commit), b"[0] Participant 0: Commit\n".to_vec());
    assert_eq!(wal_line(10, 407, WalEntry::Rollback), b"[10] Participant 407: Rollback\n".to_vec());
}

#[test]
fn wal_line_extreme_numbers() {
    let line = wal_line(u128::MAX, u32::MAX, WalEntry::Commit);
    let expected = format!("[{}] Participant {}: Commit\n", u128::MAX, u32::MAX);
    assert_eq!(line, expected.into_bytes());
}

#[test]
fn wal_line_matches_the_format_of_the_log() {
    for (ts, id) in [(1u128, 9u32), (99, 10), (123456789, 65535)] {
        for (entry, word) in [(WalEntry::Prepared, "Prepared"), (WalEntry::Commit, "Commit"), (WalEntry::Rollback, "Rollback")] {
            let expected = format!("[{}] Participant {}: {}\n", ts, id, word);
            assert_eq!(wal_line(ts, id, entry), expected.into_bytes());
        }
    }
}

#[test]
fn wal_line_is_one_line() {
    let line = wal_line(1712345678901, 3, WalEntry::Rollback);
    assert_eq!(line[0], b'[');
    assert_eq!(*line.last().unwrap(), b'\n');
    assert_eq!(line.iter().filter(|b| **b == b'\n').count(), 1);
}

#[test]
fn wal_file_names() {
    assert_eq!(wal_file_name(0), b"wal_participant_0.log".to_vec());
    assert_eq!(wal_file_name(2), b"wal_participant_2.log".to_vec());
    assert_eq!(wal_file_name(4294967295), b"wal_participant_4294967295.log".to_vec());
}

#[test]
fn wal_file_names_differ() {
    let names: Vec<Vec<u8>> = (0..200u32).map(wal_file_name).collect();
    for i in 0..names.len() {
        for j in (i + 1)..names.len() {
            assert_ne!(names[i], names[j]);
        }
    }
}

#[test]
fn wal_entry_text() {
    assert_eq!(WalEntry::Prepared.text(), "Prepared");
    assert_eq!(WalEntry::Commit.text(), "Commit");
    assert_eq!(WalEntry::Rollback.text(), "Rollback");
}
