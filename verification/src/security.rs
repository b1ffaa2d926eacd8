//! The audit log, upload prompting by privacy mode, and secret redaction.

use vstd::prelude::*;
use crate::text::{contains_seq, find_seq, own, replace, replace_seq, str_eq};

verus! {

/// One audited action.
#[derive(Debug, Clone)]
pub struct AuditEntry {
    pub timestamp: String,
    pub action: String,
    pub provider: Option<String>,
    pub model: Option<String>,
    pub details: String,
    pub approved: bool,
}

/// Keeps the audit log.
pub struct SecurityManager {
    audit_log: Vec<AuditEntry>,
}

/// Whether an upload asks the user first, by privacy mode: always in
/// `strict` mode, for screenshots in `balanced` mode, never in `open` mode,
/// and always in any mode it does not know.
pub open spec fn prompts_for_upload(privacy_mode: Seq<char>, is_screenshot: bool) -> bool {
    if privacy_mode == "strict"@ {
        true
    } else if privacy_mode == "balanced"@ {
        is_screenshot
    } else if privacy_mode == "open"@ {
        false
    } else {
        true
    }
}

/// What takes the place of a secret.
pub const REDACTED: &'static str = "[REDACTED]";

/// `text` with every occurrence of each pattern replaced by `[REDACTED]`,
/// the patterns taken in order.
pub open spec fn redacted(text: Seq<char>, patterns: Seq<Seq<char>>) -> Seq<char>
    decreases patterns.len(),
{
    if patterns.len() == 0 {
        text
    } else {
        replace_seq(redacted(text, patterns.drop_last()), patterns.last(), REDACTED@)
    }
}

impl SecurityManager {
    /// The entries logged so far, oldest first.
    pub closed spec fn log(&self) -> Seq<AuditEntry> {
        self.audit_log@
    }

    /// A manager with an empty log.
    pub fn new() -> (res: Self)
        ensures
            res.log().len() == 0,
    {
        SecurityManager { audit_log: Vec::new() }
    }

    /// Appends an entry to the log.
    pub fn log_action(&mut self, entry: AuditEntry)
        ensures
            final(self).log() == old(self).log().push(entry),
    {
        self.audit_log.push(entry);
    }

    /// The log, oldest entry first.
    pub fn audit_log(&self) -> (res: &[AuditEntry])
        ensures
            res@ == self.log(),
    {
        self.audit_log.as_slice()
    }

    /// Whether an upload in this privacy mode asks the user first.
    pub fn should_prompt_for_upload(&self, privacy_mode: &str, is_screenshot: bool) -> (res: bool)
        ensures
            res == prompts_for_upload(privacy_mode@, is_screenshot),
    {
        if str_eq(privacy_mode, "strict") {
            true
        } else if str_eq(privacy_mode, "balanced") {
            is_screenshot
        } else if str_eq(privacy_mode, "open") {
            false
        } else {
            true
        }
    }

    /// `text` with every occurrence of each pattern, in order, replaced by
    /// `[REDACTED]`.
    pub fn redact_secrets(text: &str, patterns: &[&str]) -> (res: String)
        ensures
            res@ == redacted(text@, patterns@.map_values(|p: &str| p@)),
    {
        let ghost pats = patterns@.map_values(|p: &str| p@);
        let mut result = own(text);
        let mut i: usize = 0;
        assert(pats.subrange(0, 0) =~= seq![]);
        while i < patterns.len()
            invariant
                i <= patterns@.len(),
                pats == patterns@.map_values(|p: &str| p@),
                result@ == redacted(text@, pats.subrange(0, i as int)),
            decreases patterns@.len() - i,
        {
            let next = replace(result.as_str(), patterns[i], REDACTED);
            proof {
                assert(pats.subrange(0, i + 1).drop_last() =~= pats.subrange(0, i as int));
            }
            result = next;
            i += 1;
        }
        proof {
            assert(pats.subrange(0, patterns@.len() as int) =~= pats);
        }
        result
    }
}

impl Default for SecurityManager {
    fn default() -> (res: Self)
        ensures
            res.log().len() == 0,
    {
        SecurityManager::new()
    }
}

/// Redaction leaves a text alone when none of the (non-empty) patterns
/// occurs in it.
pub proof fn law_redaction_keeps_clean_text(text: Seq<char>, patterns: Seq<Seq<char>>)
    requires
        forall|i: int|
            0 <= i < patterns.len() ==> (#[trigger] patterns[i]).len() > 0 && !contains_seq(
                text,
                patterns[i],
            ),
    ensures
        redacted(text, patterns) == text,
    decreases patterns.len(),
{
    if patterns.len() > 0 {
        law_redaction_keeps_clean_text(text, patterns.drop_last());
        let p = patterns.last();
        assert(patterns[patterns.len() - 1] == p);
        assert(find_seq(text, p) is None);
    }
}

/// In strict mode every upload asks first, in open mode none does, and in
/// balanced mode exactly the screenshots do.
pub proof fn law_privacy_modes(is_screenshot: bool)
    ensures
        prompts_for_upload("strict"@, is_screenshot),
        !prompts_for_upload("open"@, is_screenshot),
        prompts_for_upload("balanced"@, is_screenshot) == is_screenshot,
{
    reveal_strlit("strict");
    reveal_strlit("balanced");
    reveal_strlit("open");
    assert("strict"@.len() == 6);
    assert("balanced"@.len() == 8);
    assert("open"@.len() == 4);
}

} // verus!
