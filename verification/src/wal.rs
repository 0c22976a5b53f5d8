//! The write-ahead log records that a participant appends to its own file
//! before it carries out an action.

use vstd::prelude::*;

verus! {

/// The bytes of a text made of ASCII characters.
pub open spec fn ascii(text: Seq<char>) -> Seq<u8> {
    text.map_values(|c: char| c as u8)
}

/// The ASCII code of the decimal digit `d`.
pub open spec fn digit(d: nat) -> u8 {
    (48 + d) as u8
}

/// `n` written in decimal, without leading zeros.
pub open spec fn decimal(n: nat) -> Seq<u8>
    decreases n,
{
    if n < 10 {
        seq![digit(n)]
    } else {
        decimal(n / 10).push(digit(n % 10))
    }
}

/// What a participant is about to do, as recorded in its log.
#[derive(PartialEq, Eq, Structural, Clone, Copy, Debug)]
pub enum WalEntry {
    /// It is about to vote `Yes`, and so promises to commit if asked to.
    Prepared,
    /// It is about to apply the commit.
    Commit,
    /// It is about to apply the rollback.
    Rollback,
}

impl WalEntry {
    pub open spec fn spec_text(self) -> Seq<char> {
        match self {
            WalEntry::Prepared => "Prepared"@,
            WalEntry::Commit => "Commit"@,
            WalEntry::Rollback => "Rollback"@,
        }
    }

    /// The word that stands for this entry in the log.
    pub fn text(&self) -> (t: &'static str)
        ensures
            t@ == self.spec_text(),
            vstd::string::is_ascii(t),
    {
        match self {
            WalEntry::Prepared => {
                proof {
                    reveal_strlit("Prepared");
                }
                "Prepared"
            },
            WalEntry::Commit => {
                proof {
                    reveal_strlit("Commit");
                }
                "Commit"
            },
            WalEntry::Rollback => {
                proof {
                    reveal_strlit("Rollback");
                }
                "Rollback"
            },
        }
    }
}

/// One log record: `[<timestamp>] Participant <id>: <entry>` and a newline.
pub open spec fn spec_wal_line(timestamp_ms: nat, id: nat, entry: WalEntry) -> Seq<u8> {
    seq![91u8] + decimal(timestamp_ms) + ascii("] Participant "@) + decimal(id) + ascii(": "@)
        + ascii(entry.spec_text()) + seq![10u8]
}

/// The name of the log file of participant `id`: `wal_participant_<id>.log`.
pub open spec fn spec_wal_file_name(id: nat) -> Seq<u8> {
    ascii("wal_participant_"@) + decimal(id) + ascii(".log"@)
}

fn push_text(out: &mut Vec<u8>, text: &str)
    requires
        vstd::string::is_ascii(text),
    ensures
        final(out)@ == old(out)@ + ascii(text@),
{
    proof {
        vstd::string::is_ascii_spec_bytes(text);
    }
    let bytes = text.as_bytes();
    let mut i: usize = 0;
    while i < bytes.len()
        invariant
            bytes@ == ascii(text@),
            i <= bytes@.len(),
            out@ == old(out)@ + bytes@.take(i as int),
        decreases bytes@.len() - i,
    {
        out.push(bytes[i]);
        assert(bytes@.take(i + 1) == bytes@.take(i as int).push(bytes@[i as int]));
        i = i + 1;
    }
    assert(bytes@.take(i as int) == bytes@);
}

fn push_decimal(out: &mut Vec<u8>, n: u128)
    ensures
        final(out)@ == old(out)@ + decimal(n as nat),
    decreases n,
{
    if n >= 10 {
        push_decimal(out, n / 10);
    }
    let d: u8 = (n % 10) as u8;
    out.push(48 + d);
    assert(decimal(n as nat) == if n < 10 {
        seq![digit(n as nat)]
    } else {
        decimal((n / 10) as nat).push(digit((n % 10) as nat))
    });
}

/// The record that participant `id` appends to its log at `timestamp_ms`
/// (milliseconds since the Unix epoch) before it carries out `entry`.
pub fn wal_line(timestamp_ms: u128, id: u32, entry: WalEntry) -> (line: Vec<u8>)
    ensures
        line@ == spec_wal_line(timestamp_ms as nat, id as nat, entry),
{
    let mut line: Vec<u8> = Vec::new();
    line.push(91u8);
    push_decimal(&mut line, timestamp_ms);
    proof {
        reveal_strlit("] Participant ");
        reveal_strlit(": ");
    }
    push_text(&mut line, "] Participant ");
    push_decimal(&mut line, id as u128);
    push_text(&mut line, ": ");
    push_text(&mut line, entry.text());
    line.push(10u8);
    line
}

/// The name of the file that holds the log of participant `id`.
pub fn wal_file_name(id: u32) -> (name: Vec<u8>)
    ensures
        name@ == spec_wal_file_name(id as nat),
{
    let mut name: Vec<u8> = Vec::new();
    proof {
        reveal_strlit("wal_participant_");
        reveal_strlit(".log");
    }
    push_text(&mut name, "wal_participant_");
    push_decimal(&mut name, id as u128);
    push_text(&mut name, ".log");
    name
}

} // verus!

verus! {

proof fn lemma_decimal_is_digits(n: nat)
    ensures
        decimal(n).len() >= 1,
        n < 10 <==> decimal(n).len() == 1,
        forall|i: int| 0 <= i < decimal(n).len() ==> 48 <= #[trigger] decimal(n)[i] <= 57,
    decreases n,
{
    if n >= 10 {
        lemma_decimal_is_digits(n / 10);
    }
}

proof fn lemma_decimal_injective(a: nat, b: nat)
    requires
        decimal(a) == decimal(b),
    ensures
        a == b,
    decreases a,
{
    lemma_decimal_is_digits(a);
    lemma_decimal_is_digits(b);
    if a >= 10 && b >= 10 {
        assert(decimal(a).drop_last() == decimal(a / 10));
        assert(decimal(b).drop_last() == decimal(b / 10));
        lemma_decimal_injective(a / 10, b / 10);
        assert(decimal(a).last() == digit(a % 10));
        assert(decimal(b).last() == digit(b % 10));
        assert(a % 10 == b % 10);
        assert(a == 10 * (a / 10) + a % 10);
        assert(b == 10 * (b / 10) + b % 10);
    } else {
        assert(decimal(a)[0] == digit(a));
        assert(decimal(b)[0] == digit(b));
    }
}

proof fn lemma_text_has_no_newline(text: Seq<char>)
    requires
        forall|i: int| 0 <= i < text.len() ==> ' ' <= #[trigger] text[i] <= '~',
    ensures
        forall|i: int| 0 <= i < ascii(text).len() ==> #[trigger] ascii(text)[i] != 10u8,
{
    assert forall|i: int| 0 <= i < ascii(text).len() implies #[trigger] ascii(text)[i] != 10u8 by {
        assert(ascii(text)[i] == text[i] as u8);
    }
}

/// Every record is exactly one line: it starts with `[`, ends with the
/// newline, and holds no other newline, so records appended one after the
/// other can be read back line by line.
pub proof fn lemma_wal_line_is_one_line(timestamp_ms: nat, id: nat, entry: WalEntry)
    ensures
        spec_wal_line(timestamp_ms, id, entry).len() > 1,
        spec_wal_line(timestamp_ms, id, entry)[0] == 91u8,
        spec_wal_line(timestamp_ms, id, entry).last() == 10u8,
        forall|i: int|
            0 <= i < spec_wal_line(timestamp_ms, id, entry).len() - 1
                ==> #[trigger] spec_wal_line(timestamp_ms, id, entry)[i] != 10u8,
{
    reveal_strlit("] Participant ");
    reveal_strlit(": ");
    reveal_strlit("Prepared");
    reveal_strlit("Commit");
    reveal_strlit("Rollback");
    lemma_decimal_is_digits(timestamp_ms);
    lemma_decimal_is_digits(id);
    lemma_text_has_no_newline("] Participant "@);
    lemma_text_has_no_newline(": "@);
    lemma_text_has_no_newline(entry.spec_text());
    let line = spec_wal_line(timestamp_ms, id, entry);
    let body = seq![91u8] + decimal(timestamp_ms) + ascii("] Participant "@) + decimal(id)
        + ascii(": "@) + ascii(entry.spec_text());
    assert(line == body.push(10u8));
    assert forall|i: int| 0 <= i < body.len() implies #[trigger] body[i] != 10u8 by {
        let p1 = seq![91u8];
        let p2 = p1 + decimal(timestamp_ms);
        let p3 = p2 + ascii("] Participant "@);
        let p4 = p3 + decimal(id);
        let p5 = p4 + ascii(": "@);
        if i < p1.len() {
        } else if i < p2.len() {
            assert(p2[i] == decimal(timestamp_ms)[i - p1.len()]);
        } else if i < p3.len() {
            assert(p3[i] == ascii("] Participant "@)[i - p2.len()]);
        } else if i < p4.len() {
            assert(p4[i] == decimal(id)[i - p3.len()]);
        } else if i < p5.len() {
            assert(p5[i] == ascii(": "@)[i - p4.len()]);
        } else {
            assert(body[i] == ascii(entry.spec_text())[i - p5.len()]);
        }
    }
    assert forall|i: int| 0 <= i < line.len() - 1 implies #[trigger] line[i] != 10u8 by {
        assert(line[i] == body[i]);
    }
}

/// Each participant writes to a file of its own: two participants with
/// different ids never share a log file.
pub proof fn lemma_wal_file_names_differ(a: nat, b: nat)
    requires
        a != b,
    ensures
        spec_wal_file_name(a) != spec_wal_file_name(b),
{
    if spec_wal_file_name(a) == spec_wal_file_name(b) {
        let prefix = ascii("wal_participant_"@);
        let suffix = ascii(".log"@);
        let na = spec_wal_file_name(a);
        let nb = spec_wal_file_name(b);
        assert(na.len() == nb.len());
        assert(decimal(a).len() == decimal(b).len());
        assert(decimal(a) == na.subrange(prefix.len() as int, (prefix.len() + decimal(a).len()) as int));
        assert(decimal(b) == nb.subrange(prefix.len() as int, (prefix.len() + decimal(b).len()) as int));
        lemma_decimal_injective(a, b);
    }
}

} // verus!
