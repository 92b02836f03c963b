//! The user's settings and the per-application rules.
use vstd::prelude::*;
use crate::text::str_equals;

verus! {

/// The settings the application keeps between runs.
#[derive(Debug, Clone, PartialEq)]
pub struct AppConfig {
    pub poll_interval_ms: u64,
    pub debug_mode: bool,
    pub auto_start: bool,
    pub blacklist: Vec<String>,
    pub whitelist_mode: bool,
}

impl Default for AppConfig {
    /// Polling every 250 ms, no debug output, starting automatically, an empty
    /// list of applications, used as a blacklist.
    fn default() -> (c: Self)
        ensures
            c.poll_interval_ms == 250,
            !c.debug_mode,
            c.auto_start,
            c.blacklist@.len() == 0,
            !c.whitelist_mode,
    {
        AppConfig {
            poll_interval_ms: 250,
            debug_mode: false,
            auto_start: true,
            blacklist: Vec::new(),
            whitelist_mode: false,
        }
    }
}

/// The full Unicode lower-case form of a string, as `str::to_lowercase` computes it.
pub uninterp spec fn unicode_lowercase(s: Seq<char>) -> Seq<char>;

/// `str::to_lowercase`: the string with every character replaced by its
/// Unicode lower-case mapping. The mapping tables are not restated here: the
/// result is named by `unicode_lowercase`.
#[verifier::external_body]
fn to_lowercase(s: &str) -> (r: String)
    ensures
        r@ == unicode_lowercase(s@),
{
    s.to_lowercase()
}

/// Whether the list names the process, comparing lower-case forms.
pub open spec fn is_listed(list: Seq<String>, process_name: Seq<char>) -> bool {
    exists|i: int|
        0 <= i < list.len() && unicode_lowercase(#[trigger] list[i]@) == unicode_lowercase(
            process_name,
        )
}

/// Whether the rules let the watcher act in the process.
pub open spec fn is_app_allowed_spec(config: AppConfig, process_name: Seq<char>) -> bool {
    if config.whitelist_mode {
        is_listed(config.blacklist@, process_name)
    } else {
        !is_listed(config.blacklist@, process_name)
    }
}

/// Whitelist mode allows exactly the processes that blacklist mode refuses
/// with the same list.
pub proof fn law_whitelist_inverts_blacklist(a: AppConfig, b: AppConfig, process_name: Seq<char>)
    requires
        a.blacklist@ == b.blacklist@,
        a.whitelist_mode != b.whitelist_mode,
    ensures
        is_app_allowed_spec(a, process_name) == !is_app_allowed_spec(b, process_name),
{
}

/// Every entry of the list counts: a process whose lower-case name matches
/// any one entry is refused in blacklist mode and allowed in whitelist mode,
/// whatever the other entries are.
pub proof fn law_any_listed_entry_decides(config: AppConfig, process_name: Seq<char>, i: int)
    requires
        0 <= i < config.blacklist@.len(),
        unicode_lowercase(config.blacklist@[i]@) == unicode_lowercase(process_name),
    ensures
        is_app_allowed_spec(config, process_name) == config.whitelist_mode,
{
    assert(is_listed(config.blacklist@, process_name));
}

/// A process that matches no entry is allowed in blacklist mode and refused
/// in whitelist mode.
pub proof fn law_unlisted_process(config: AppConfig, process_name: Seq<char>)
    requires
        forall|i: int|
            0 <= i < config.blacklist@.len() ==> unicode_lowercase(#[trigger] config.blacklist@[i]@)
                != unicode_lowercase(process_name),
    ensures
        is_app_allowed_spec(config, process_name) == !config.whitelist_mode,
{
}

impl AppConfig {
    /// The polling interval must lie between 50 and 1000 milliseconds.
    pub fn validate(&self) -> (r: Result<(), String>)
        ensures
            r is Ok <==> 50 <= self.poll_interval_ms <= 1000,
            r matches Err(e) ==> e@ == "poll_interval_ms must be between 50 and 1000"@,
    {
        if self.poll_interval_ms < 50 || self.poll_interval_ms > 1000 {
            return Err(String::from_str("poll_interval_ms must be between 50 and 1000"));
        }
        Ok(())
    }

    /// Whether the watcher may act in the process: in whitelist mode only the
    /// listed processes are allowed, otherwise all but the listed ones.
    pub fn is_app_allowed(&self, process_name: &str) -> (r: bool)
        ensures
            r == is_app_allowed_spec(*self, process_name@),
    {
        let name = to_lowercase(process_name);
        let mut found = false;
        let mut i: usize = 0;
        while i < self.blacklist.len()
            invariant
                i <= self.blacklist@.len(),
                name@ == unicode_lowercase(process_name@),
                found == exists|j: int|
                    0 <= j < i && unicode_lowercase(#[trigger] self.blacklist@[j]@)
                        == unicode_lowercase(process_name@),
            decreases self.blacklist.len() - i,
        {
            let entry = to_lowercase(self.blacklist[i].as_str());
            if str_equals(entry.as_str(), name.as_str()) {
                found = true;
            }
            i = i + 1;
        }
        if self.whitelist_mode {
            found
        } else {
            !found
        }
    }
}

} // verus!
