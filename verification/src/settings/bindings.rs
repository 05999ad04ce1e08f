//! Keyboard shortcut bindings: the built-in set and how stored bindings are
//! merged into it.
use vstd::prelude::*;
use crate::settings::enums::Platform;
use crate::str_map::{StrMap, entries_view, lemma_prefix_view_step, lemma_take_full};
use crate::text::{clone_opt_string, is_empty_string, opt_string_eq, owned, str_eq};

verus! {

broadcast use vstd::string::group_string_axioms;

/// A keyboard shortcut bound to an action.
#[derive(Debug, Clone)]
pub struct ShortcutBinding {
    pub id: String,
    pub name: String,
    pub description: String,
    pub default_binding: String,
    pub current_binding: String,
    pub post_process_prompt_id: Option<String>,
}

/// A shortcut binding as text.
pub struct ShortcutBindingView {
    pub id: Seq<char>,
    pub name: Seq<char>,
    pub description: Seq<char>,
    pub default_binding: Seq<char>,
    pub current_binding: Seq<char>,
    pub post_process_prompt_id: Option<Seq<char>>,
}

impl View for ShortcutBinding {
    type V = ShortcutBindingView;

    open spec fn view(&self) -> ShortcutBindingView {
        ShortcutBindingView {
            id: self.id@,
            name: self.name@,
            description: self.description@,
            default_binding: self.default_binding@,
            current_binding: self.current_binding@,
            post_process_prompt_id: self.post_process_prompt_id.deep_view(),
        }
    }
}

impl ShortcutBinding {
    /// A field-by-field copy.
    pub fn duplicate(&self) -> (r: ShortcutBinding)
        ensures
            r@ == self@,
            r == *self,
    {
        ShortcutBinding {
            id: self.id.clone(),
            name: self.name.clone(),
            description: self.description.clone(),
            default_binding: self.default_binding.clone(),
            current_binding: self.current_binding.clone(),
            post_process_prompt_id: clone_opt_string(&self.post_process_prompt_id),
        }
    }

    /// Whether two bindings hold the same text in every field.
    pub fn same_as(&self, other: &ShortcutBinding) -> (r: bool)
        ensures
            r == (self@ == other@),
    {
        str_eq(self.id.as_str(), other.id.as_str())
            && str_eq(self.name.as_str(), other.name.as_str())
            && str_eq(self.description.as_str(), other.description.as_str())
            && str_eq(self.default_binding.as_str(), other.default_binding.as_str())
            && str_eq(self.current_binding.as_str(), other.current_binding.as_str())
            && opt_string_eq(&self.post_process_prompt_id, &other.post_process_prompt_id)
    }
}

/// A binding with no prompt, whose default and current key combination agree.
pub open spec fn builtin_binding_view(
    id: Seq<char>,
    name: Seq<char>,
    description: Seq<char>,
    shortcut: Seq<char>,
) -> ShortcutBindingView {
    ShortcutBindingView {
        id,
        name,
        description,
        default_binding: shortcut,
        current_binding: shortcut,
        post_process_prompt_id: None,
    }
}

/// The key combination that starts a plain transcription on each platform.
pub open spec fn spec_transcribe_shortcut(p: Platform) -> Seq<char> {
    match p {
        Platform::MacOs => "fn"@,
        Platform::Windows => "ctrl+space"@,
        Platform::Linux => "ctrl+space"@,
        Platform::Other => "alt+space"@,
    }
}

/// The key combination that starts a transcription with post-processing on each platform.
pub open spec fn spec_post_process_shortcut(p: Platform) -> Seq<char> {
    match p {
        Platform::MacOs => "option+shift+space"@,
        Platform::Windows => "ctrl+shift+space"@,
        Platform::Linux => "ctrl+shift+space"@,
        Platform::Other => "alt+shift+space"@,
    }
}

/// The built-in bindings of a platform, by id.
pub open spec fn spec_default_bindings(p: Platform) -> Map<Seq<char>, ShortcutBindingView> {
    Map::<Seq<char>, ShortcutBindingView>::empty().insert(
        "transcribe"@,
        builtin_binding_view(
            "transcribe"@,
            "Transcribe"@,
            "Converts your speech into text."@,
            spec_transcribe_shortcut(p),
        ),
    ).insert(
        "transcribe_with_post_process"@,
        builtin_binding_view(
            "transcribe_with_post_process"@,
            "Transcribe with Post-Processing"@,
            "Converts your speech into text and applies AI post-processing."@,
            spec_post_process_shortcut(p),
        ),
    ).insert(
        "cancel"@,
        builtin_binding_view("cancel"@, "Cancel"@, "Cancels the current recording."@, "escape"@),
    )
}

/// The ids of the built-in bindings.
pub open spec fn spec_is_builtin_binding_id(id: Seq<char>) -> bool {
    id == "transcribe"@ || id == "transcribe_with_post_process"@ || id == "cancel"@
}

fn builtin_binding(id: &str, name: &str, description: &str, shortcut: &str) -> (b: ShortcutBinding)
    ensures
        b@ == builtin_binding_view(id@, name@, description@, shortcut@),
{
    ShortcutBinding {
        id: owned(id),
        name: owned(name),
        description: owned(description),
        default_binding: owned(shortcut),
        current_binding: owned(shortcut),
        post_process_prompt_id: None,
    }
}

fn transcribe_shortcut(platform: Platform) -> (s: &'static str)
    ensures
        s@ == spec_transcribe_shortcut(platform),
{
    match platform {
        Platform::MacOs => "fn",
        Platform::Windows => "ctrl+space",
        Platform::Linux => "ctrl+space",
        Platform::Other => "alt+space",
    }
}

fn post_process_shortcut(platform: Platform) -> (s: &'static str)
    ensures
        s@ == spec_post_process_shortcut(platform),
{
    match platform {
        Platform::MacOs => "option+shift+space",
        Platform::Windows => "ctrl+shift+space",
        Platform::Linux => "ctrl+shift+space",
        Platform::Other => "alt+shift+space",
    }
}

/// The built-in bindings: transcribe, transcribe with post-processing, and cancel.
pub fn default_bindings(platform: Platform) -> (m: StrMap<ShortcutBinding>)
    ensures
        m@ == spec_default_bindings(platform),
{
    let mut m: StrMap<ShortcutBinding> = StrMap::new();
    m.insert(
        owned("transcribe"),
        builtin_binding(
            "transcribe",
            "Transcribe",
            "Converts your speech into text.",
            transcribe_shortcut(platform),
        ),
    );
    m.insert(
        owned("transcribe_with_post_process"),
        builtin_binding(
            "transcribe_with_post_process",
            "Transcribe with Post-Processing",
            "Converts your speech into text and applies AI post-processing.",
            post_process_shortcut(platform),
        ),
    );
    m.insert(
        owned("cancel"),
        builtin_binding("cancel", "Cancel", "Cancels the current recording.", "escape"),
    );
    m
}

/// The built-in bindings have the same ids on every platform.
pub proof fn lemma_builtin_ids(p: Platform, id: Seq<char>)
    ensures
        spec_default_bindings(p).contains_key(id) == spec_is_builtin_binding_id(id),
{
}

/// Whether `binding_id` names one of the built-in bindings.
pub fn is_builtin_binding_id(binding_id: &str) -> (r: bool)
    ensures
        r == spec_is_builtin_binding_id(binding_id@),
{
    str_eq(binding_id, "transcribe") || str_eq(binding_id, "transcribe_with_post_process")
        || str_eq(binding_id, "cancel")
}

/// A built-in binding with the key combination and prompt that the user stored for it.
pub open spec fn merged_builtin(d: ShortcutBindingView, s: ShortcutBindingView) -> ShortcutBindingView {
    ShortcutBindingView {
        id: d.id,
        name: d.name,
        description: d.description,
        default_binding: d.default_binding,
        current_binding: if s.current_binding.len() > 0 {
            s.current_binding
        } else {
            d.current_binding
        },
        post_process_prompt_id: s.post_process_prompt_id,
    }
}

/// A user-defined binding whose empty current or default key combination is
/// filled from the other one.
pub open spec fn filled_custom(s: ShortcutBindingView) -> ShortcutBindingView {
    let current = if s.current_binding.len() == 0 {
        s.default_binding
    } else {
        s.current_binding
    };
    ShortcutBindingView {
        id: s.id,
        name: s.name,
        description: s.description,
        default_binding: if s.default_binding.len() == 0 {
            current
        } else {
            s.default_binding
        },
        current_binding: current,
        post_process_prompt_id: s.post_process_prompt_id,
    }
}

/// The bindings that stored bindings normalise to: every built-in binding, with
/// the user's key combination and prompt where one was stored, and every
/// user-defined binding, filled in.
#[verifier::opaque]
pub open spec fn spec_normalized_bindings(
    stored: Map<Seq<char>, ShortcutBindingView>,
    defaults: Map<Seq<char>, ShortcutBindingView>,
) -> Map<Seq<char>, ShortcutBindingView> {
    Map::new(
        |k: Seq<char>| defaults.contains_key(k) || stored.contains_key(k),
        |k: Seq<char>|
            if defaults.contains_key(k) {
                if stored.contains_key(k) {
                    merged_builtin(defaults[k], stored[k])
                } else {
                    defaults[k]
                }
            } else {
                filled_custom(stored[k])
            },
    )
}

/// Merges stored bindings into the built-in ones.
pub fn normalized_bindings(stored: &StrMap<ShortcutBinding>, platform: Platform) -> (r: StrMap<
    ShortcutBinding,
>)
    ensures
        r@ == spec_normalized_bindings(stored@, spec_default_bindings(platform)),
{
    reveal(spec_normalized_bindings);
    let defaults = default_bindings(platform);
    let mut bindings = default_bindings(platform);
    let n = stored.entries.len();
    proof {
        assert(entries_view(stored.entries@.take(0)) =~= Map::<Seq<char>, ShortcutBindingView>::empty());
        assert(bindings@ =~= spec_normalized_bindings(entries_view(stored.entries@.take(0)), defaults@));
    }
    for i in 0..n
        invariant
            n == stored.entries@.len(),
            defaults@ == spec_default_bindings(platform),
            bindings@ == spec_normalized_bindings(entries_view(stored.entries@.take(i as int)), defaults@),
    {
        let key = &stored.entries[i].0;
        let sb = &stored.entries[i].1;
        let ghost prefix = entries_view(stored.entries@.take(i as int));
        proof {
            lemma_prefix_view_step(stored.entries@, i as int);
        }
        let first = match stored.find(key.as_str()) {
            Some(j) => j == i,
            None => false,
        };
        if first {
            let b = match defaults.get(key.as_str()) {
                Some(d) => {
                    let mut b = d.duplicate();
                    if !is_empty_string(&sb.current_binding) {
                        b.current_binding = sb.current_binding.clone();
                    }
                    b.post_process_prompt_id = clone_opt_string(&sb.post_process_prompt_id);
                    b
                },
                None => {
                    let mut b = sb.duplicate();
                    if is_empty_string(&b.current_binding) {
                        b.current_binding = b.default_binding.clone();
                    }
                    if is_empty_string(&b.default_binding) {
                        b.default_binding = b.current_binding.clone();
                    }
                    b
                },
            };
            let ghost bv = b@;
            bindings.insert(key.clone(), b);
            proof {
                reveal(spec_normalized_bindings);
                let k = key@;
                assert(bv == (if defaults@.contains_key(k) {
                    merged_builtin(defaults@[k], sb@)
                } else {
                    filled_custom(sb@)
                }));
                assert(spec_normalized_bindings(prefix.insert(k, sb@), defaults@) =~= spec_normalized_bindings(
                    prefix,
                    defaults@,
                ).insert(k, bv));
            }
        }
    }
    proof {
        lemma_take_full(stored.entries@);
    }
    bindings
}

/// Every built-in binding has a non-empty key combination.
pub proof fn lemma_default_shortcuts_non_empty(p: Platform)
    ensures
        forall|k: Seq<char>| #[trigger] spec_default_bindings(p).contains_key(k)
            ==> spec_default_bindings(p)[k].current_binding.len() > 0,
{
    reveal_strlit("fn");
    reveal_strlit("ctrl+space");
    reveal_strlit("alt+space");
    reveal_strlit("option+shift+space");
    reveal_strlit("ctrl+shift+space");
    reveal_strlit("alt+shift+space");
    reveal_strlit("escape");
}

/// Normalising bindings that are already normalised changes nothing.
pub proof fn lemma_normalized_bindings_idempotent(
    stored: Map<Seq<char>, ShortcutBindingView>,
    p: Platform,
)
    ensures
        spec_normalized_bindings(
            spec_normalized_bindings(stored, spec_default_bindings(p)),
            spec_default_bindings(p),
        ) == spec_normalized_bindings(stored, spec_default_bindings(p)),
{
    reveal(spec_normalized_bindings);
    lemma_default_shortcuts_non_empty(p);
    let d = spec_default_bindings(p);
    let n = spec_normalized_bindings(stored, d);
    assert(spec_normalized_bindings(n, d) =~= n);
}

/// Whether two binding maps bind the same ids to the same bindings.
pub fn same_binding_maps(a: &StrMap<ShortcutBinding>, b: &StrMap<ShortcutBinding>) -> (r: bool)
    ensures
        r == (a@ == b@),
{
    let n = a.entries.len();
    proof {
        assert forall|k: Seq<char>| #[trigger] a.index_of_key(k) >= 0 by {
            crate::str_map::lemma_first_key_index(a.entries@, k);
        }
        assert forall|k: Seq<char>| #[trigger] b.index_of_key(k) >= 0 by {
            crate::str_map::lemma_first_key_index(b.entries@, k);
        }
    }
    for i in 0..n
        invariant
            n == a.entries@.len(),
            forall|k: Seq<char>| #[trigger] b.index_of_key(k) >= 0,
            forall|k: Seq<char>| #[trigger] a@.contains_key(k) && a.index_of_key(k) < i ==> b@.contains_key(k)
                && b@[k] == a@[k],
    {
        let key = &a.entries[i].0;
        proof {
            crate::str_map::lemma_first_key_index(a.entries@, key@);
        }
        match b.get(key.as_str()) {
            Some(bv) => {
                let av = a.get(key.as_str()).unwrap();
                if !av.same_as(bv) {
                    return false;
                }
            },
            None => {
                return false;
            },
        }
        proof {
            assert forall|k: Seq<char>| #[trigger] a@.contains_key(k) && a.index_of_key(k) < i + 1 implies b@.contains_key(k)
                && b@[k] == a@[k] by {
                if a.index_of_key(k) == i {
                    crate::str_map::lemma_first_key_index(a.entries@, k);
                }
            }
        }
    }
    let m = b.entries.len();
    for j in 0..m
        invariant
            m == b.entries@.len(),
            n == a.entries@.len(),
            forall|k: Seq<char>| #[trigger] b.index_of_key(k) >= 0,
            forall|k: Seq<char>| #[trigger] a@.contains_key(k) ==> b@.contains_key(k) && b@[k] == a@[k],
            forall|k: Seq<char>| #[trigger] b@.contains_key(k) && b.index_of_key(k) < j ==> a@.contains_key(k),
    {
        let key = &b.entries[j].0;
        if !a.contains_key(key.as_str()) {
            proof {
                crate::str_map::lemma_first_key_index(b.entries@, key@);
            }
            return false;
        }
        proof {
            assert forall|k: Seq<char>| #[trigger] b@.contains_key(k) && b.index_of_key(k) < j + 1 implies a@.contains_key(k) by {
                if b.index_of_key(k) == j {
                    crate::str_map::lemma_first_key_index(b.entries@, k);
                }
            }
        }
    }
    proof {
        assert(a@ =~= b@);
    }
    true
}

} // verus!
