//! The append-only session history and its summary.

use vstd::prelude::*;

verus! {

/// The direction of one operation attempt.
#[derive(Debug, Clone, Copy, PartialEq, Eq, Structural)]
pub enum CryptoAction {
    /// The operation was an encryption.
    Encrypt,
    /// The operation was a decryption.
    Decrypt,
}

/// One logged operation attempt: target path, direction, and outcome.
#[derive(Debug, Clone)]
pub struct HistoryEntry {
    /// The input path the operation was attempted on.
    pub file_path: String,
    /// Whether the attempt was an encryption or a decryption.
    pub action: CryptoAction,
    /// Whether the attempt succeeded.
    pub success: bool,
}

/// Attempt counts by direction; failures are tallied like successes.
#[derive(Debug, Clone, Copy, PartialEq, Eq, Structural)]
pub struct Summary {
    /// How many encryption attempts the session saw.
    pub encrypted_count: usize,
    /// How many decryption attempts the session saw.
    pub decrypted_count: usize,
}

/// How many entries of `s` went in direction `a`, successes and failures
/// alike: the summary counts attempts, not outcomes.
pub open spec fn count_action(s: Seq<HistoryEntry>, a: CryptoAction) -> int
    decreases s.len(),
{
    if s.len() == 0 {
        0
    } else {
        count_action(s.drop_last(), a) + if s.last().action == a {
            1int
        } else {
            0int
        }
    }
}

/// A direction's count never exceeds the number of entries.
pub proof fn lemma_count_action_le_len(s: Seq<HistoryEntry>, a: CryptoAction)
    ensures
        0 <= count_action(s, a) <= s.len(),
    decreases s.len(),
{
    if s.len() > 0 {
        lemma_count_action_le_len(s.drop_last(), a);
    }
}

/// Every entry is either an encryption or a decryption, so the two
/// direction counts partition the log: they always sum to its length.
pub proof fn lemma_counts_partition(s: Seq<HistoryEntry>)
    ensures
        count_action(s, CryptoAction::Encrypt) + count_action(s, CryptoAction::Decrypt) == s.len(),
    decreases s.len(),
{
    if s.len() > 0 {
        lemma_counts_partition(s.drop_last());
    }
}

/// The text of one rendered history line, as std's formatter joins the
/// 1-based index, the direction label, the path and the status label.
pub uninterp spec fn history_line(index: int, action: Seq<char>, path: Seq<char>, status: Seq<char>) -> Seq<char>;

/// Relies on std's `format!`: the joined line depends on the four arguments
/// alone.
#[verifier::external_body]
fn format_history_line(index: usize, action: &str, path: &str, status: &str) -> (r: String)
    ensures
        r@ == history_line(index as int, action@, path@, status@),
{
    format!("{}. [{}] {} -> {}", index, action, path, status)
}

/// The status label of an entry: `"Success"` or `"Failed"`.
pub open spec fn spec_status_label(success: bool) -> Seq<char> {
    if success {
        "Success"@
    } else {
        "Failed"@
    }
}

/// The status label shown for an entry with the given outcome.
pub fn status_label(success: bool) -> (r: &'static str)
    ensures
        r@ == spec_status_label(success),
{
    if success {
        "Success"
    } else {
        "Failed"
    }
}

/// The line shown when the session has no history yet.
pub open spec fn spec_no_history_line() -> Seq<char> {
    "No history yet. Try encrypting or decrypting a file first."@
}

impl CryptoAction {
    /// The direction label of this action: `"Encrypt"` or `"Decrypt"`.
    pub open spec fn spec_label(self) -> Seq<char> {
        if self is Encrypt {
            "Encrypt"@
        } else {
            "Decrypt"@
        }
    }

    /// The direction label shown in history lines.
    pub fn label(&self) -> (r: &'static str)
        ensures
            r@ == self.spec_label(),
    {
        match self {
            CryptoAction::Encrypt => "Encrypt",
            CryptoAction::Decrypt => "Decrypt",
        }
    }
}

/// The session object: an append-only, ordered log of operation attempts.
pub struct FileCryptoApp {
    /// The log, in insertion order.
    pub history: Vec<HistoryEntry>,
}

impl FileCryptoApp {
    /// A fresh session with an empty history.
    pub fn new() -> (r: Self)
        ensures
            r.history@.len() == 0,
    {
        FileCryptoApp { history: Vec::new() }
    }

    /// Appends one record to the history; nothing already logged changes.
    pub fn add_history_entry(&mut self, path: String, action: CryptoAction, success: bool)
        ensures
            final(self).history@ == old(self).history@.push(
                (HistoryEntry { file_path: path, action, success }),
            ),
    {
        let entry = HistoryEntry { file_path: path, action, success };
        self.history.push(entry);
    }

    /// Counts the attempts logged so far, by direction. A failed attempt is
    /// still tallied under its direction.
    pub fn summarize(&self) -> (r: Summary)
        ensures
            r.encrypted_count == count_action(self.history@, CryptoAction::Encrypt),
            r.decrypted_count == count_action(self.history@, CryptoAction::Decrypt),
    {
        let mut encrypted: usize = 0;
        let mut decrypted: usize = 0;
        let mut i: usize = 0;
        while i < self.history.len()
            invariant
                i <= self.history@.len(),
                encrypted == count_action(self.history@.subrange(0, i as int), CryptoAction::Encrypt),
                decrypted == count_action(self.history@.subrange(0, i as int), CryptoAction::Decrypt),
            decreases self.history@.len() - i,
        {
            proof {
                let prefix = self.history@.subrange(0, i + 1);
                assert(prefix.drop_last() =~= self.history@.subrange(0, i as int));
                assert(prefix.last() == self.history@[i as int]);
                lemma_count_action_le_len(prefix.drop_last(), CryptoAction::Encrypt);
                lemma_count_action_le_len(prefix.drop_last(), CryptoAction::Decrypt);
            }
            match self.history[i].action {
                CryptoAction::Encrypt => {
                    encrypted = encrypted + 1;
                },
                CryptoAction::Decrypt => {
                    decrypted = decrypted + 1;
                },
            }
            i = i + 1;
        }
        proof {
            assert(self.history@.subrange(0, self.history@.len() as int) =~= self.history@);
        }
        Summary { encrypted_count: encrypted, decrypted_count: decrypted }
    }

    /// The display lines of the history: one line per record in insertion
    /// order, 1-indexed, with direction, path and status; a session without
    /// history renders as the single no-history message.
    pub fn render_lines(&self) -> (r: Vec<String>)
        ensures
            self.history@.len() == 0 ==> r@.len() == 1 && r@[0]@ == spec_no_history_line(),
            self.history@.len() > 0 ==> r@.len() == self.history@.len() && forall|i: int|
                0 <= i < r@.len() ==> r@[i]@ == history_line(
                    i + 1,
                    self.history@[i].action.spec_label(),
                    self.history@[i].file_path@,
                    spec_status_label(self.history@[i].success),
                ),
    {
        let mut lines: Vec<String> = Vec::new();
        if self.history.len() == 0 {
            lines.push("No history yet. Try encrypting or decrypting a file first.".to_owned());
            return lines;
        }
        let mut i: usize = 0;
        while i < self.history.len()
            invariant
                i <= self.history@.len(),
                lines@.len() == i,
                forall|j: int| 0 <= j < i ==> lines@[j]@ == history_line(
                    j + 1,
                    self.history@[j].action.spec_label(),
                    self.history@[j].file_path@,
                    spec_status_label(self.history@[j].success),
                ),
            decreases self.history@.len() - i,
        {
            let entry = &self.history[i];
            let line = format_history_line(
                i + 1,
                entry.action.label(),
                entry.file_path.as_str(),
                status_label(entry.success),
            );
            lines.push(line);
            i = i + 1;
        }
        lines
    }
}

} // verus!
