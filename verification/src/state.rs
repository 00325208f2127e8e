//! The active provider configuration: which AI provider a profile talks to,
//! what each provider can do, and where the profile's API key is kept in the
//! platform keychain.

use vstd::prelude::*;
use crate::error::{prefixed, AppError};
use crate::text;

verus! {

/// The profile that exists before the user creates any other.
pub const DEFAULT_PROFILE_ID: &'static str = "default";

/// The AI provider a profile talks to.
#[derive(Debug, Clone, Copy, PartialEq, Eq, Structural)]
pub enum AiProvider {
    OpenAi,
    Ollama,
    Custom,
}

/// The name under which a provider is stored.
pub open spec fn provider_name(p: AiProvider) -> Seq<char> {
    match p {
        AiProvider::OpenAi => "openai"@,
        AiProvider::Ollama => "ollama"@,
        AiProvider::Custom => "custom"@,
    }
}

/// The provider a stored value names, read without surrounding whitespace and
/// without regard to ASCII case.
pub open spec fn parse_provider(value: Seq<char>) -> Option<AiProvider> {
    let n = text::lower(text::trim(value));
    if n == "openai"@ {
        Some(AiProvider::OpenAi)
    } else if n == "ollama"@ {
        Some(AiProvider::Ollama)
    } else if n == "custom"@ {
        Some(AiProvider::Custom)
    } else {
        None
    }
}

/// Whether a normalized base URL points at a local Ollama server.
pub open spec fn looks_like_ollama(n: Seq<char>) -> bool {
    ||| text::contains(n, "localhost:11434"@)
    ||| text::contains(n, "127.0.0.1:11434"@)
    ||| text::contains(n, "0.0.0.0:11434"@)
    ||| text::contains(n, "ollama"@)
}

/// The provider a base URL points at: Ollama for the local Ollama address (port 11434) or an
/// `ollama` host, OpenAI for `api.openai.com`, a custom endpoint otherwise.
pub open spec fn provider_for_url(base_url: Seq<char>) -> AiProvider {
    let n = text::lower(text::trim(base_url));
    if looks_like_ollama(n) {
        AiProvider::Ollama
    } else if text::contains(n, "api.openai.com"@) {
        AiProvider::OpenAi
    } else {
        AiProvider::Custom
    }
}

/// Normalizes a string for comparison: trimmed and ASCII lower-cased.
pub fn normalized(s: &str) -> (r: Vec<char>)
    ensures
        r@ == text::lower(text::trim(s@)),
{
    let t = text::to_chars(text::trim_str(s));
    text::lower_chars(t.as_slice())
}

/// Whether the normalized base URL `n` points at a local Ollama server.
pub fn is_ollama_url(n: &[char]) -> (r: bool)
    ensures
        r == looks_like_ollama(n@),
{
    let a = text::to_chars("localhost:11434");
    let b = text::to_chars("127.0.0.1:11434");
    let c = text::to_chars("0.0.0.0:11434");
    let d = text::to_chars("ollama");
    text::chars_contains(n, a.as_slice()) || text::chars_contains(n, b.as_slice())
        || text::chars_contains(n, c.as_slice()) || text::chars_contains(n, d.as_slice())
}

impl AiProvider {
    pub open spec fn requires_key_spec(self) -> bool {
        self == AiProvider::OpenAi
    }

    pub open spec fn supports_stt_spec(self) -> bool {
        self != AiProvider::Ollama
    }

    /// The name under which the provider is stored.
    pub fn as_str(&self) -> (r: &'static str)
        ensures
            r@ == provider_name(*self),
    {
        match self {
            AiProvider::OpenAi => "openai",
            AiProvider::Ollama => "ollama",
            AiProvider::Custom => "custom",
        }
    }

    /// The provider a stored value names, if any.
    pub fn from_stored_value(value: &str) -> (r: Option<AiProvider>)
        ensures
            r == parse_provider(value@),
    {
        let n = normalized(value);
        if text::str_eq_chars("openai", n.as_slice()) {
            Some(AiProvider::OpenAi)
        } else if text::str_eq_chars("ollama", n.as_slice()) {
            Some(AiProvider::Ollama)
        } else if text::str_eq_chars("custom", n.as_slice()) {
            Some(AiProvider::Custom)
        } else {
            None
        }
    }

    /// The provider a base URL points at.
    pub fn infer_from_base_url(base_url: &str) -> (r: AiProvider)
        ensures
            r == provider_for_url(base_url@),
    {
        let n = normalized(base_url);
        if is_ollama_url(n.as_slice()) {
            AiProvider::Ollama
        } else {
            let o = text::to_chars("api.openai.com");
            if text::chars_contains(n.as_slice(), o.as_slice()) {
                AiProvider::OpenAi
            } else {
                AiProvider::Custom
            }
        }
    }

    /// Only the official OpenAI endpoint needs an API key.
    pub fn requires_api_key(&self) -> (r: bool)
        ensures
            r == self.requires_key_spec(),
    {
        match self {
            AiProvider::OpenAi => true,
            _ => false,
        }
    }

    /// Every provider but Ollama offers Whisper speech-to-text.
    pub fn supports_whisper_stt(&self) -> (r: bool)
        ensures
            r == self.supports_stt_spec(),
    {
        match self {
            AiProvider::Ollama => false,
            _ => true,
        }
    }
}

impl Default for AiProvider {
    fn default() -> (r: AiProvider)
        ensures
            r == AiProvider::OpenAi,
    {
        AiProvider::OpenAi
    }
}

/// A string without surrounding whitespace is its own trim.
pub proof fn lemma_trim_of_trimmed(s: Seq<char>)
    requires
        s.len() == 0 || (!text::is_ws(s[0]) && !text::is_ws(s.last())),
    ensures
        text::trim(s) == s,
{
    text::lemma_trim_fixed(s);
}

/// Reading back the stored name of a provider gives the same provider.
pub proof fn lemma_stored_value_round_trip(p: AiProvider)
    ensures
        parse_provider(provider_name(p)) == Some(p),
{
    reveal_strlit("openai");
    reveal_strlit("ollama");
    reveal_strlit("custom");
    let s = provider_name(p);
    lemma_trim_of_trimmed(s);
    assert(text::lower(s) =~= s);
}

/// A stored value that names a provider is, once trimmed and lower-cased,
/// exactly that provider's stored name.
pub proof fn lemma_parsed_value_is_canonical(value: Seq<char>)
    ensures
        parse_provider(value) matches Some(p) ==> text::lower(text::trim(value)) == provider_name(p),
{
}

/// A provider that needs an API key is also one that offers speech-to-text.
pub proof fn lemma_key_required_implies_stt(p: AiProvider)
    ensures
        p.requires_key_spec() ==> p.supports_stt_spec(),
{
}


// ───────────────────────── the keychain ─────────────────────────

#[verifier::external_type_specification]
#[verifier::external_body]
pub struct ExKeyringEntry(keyring::Entry);

/// A failure reported by the platform keychain.
#[derive(Debug, Clone)]
pub struct KeyStoreError {
    /// The keychain has no credential for the entry.
    pub missing: bool,
    /// The keychain's own description of the failure.
    pub text: String,
}

/// `keyring::Entry::new`: the keychain entry for `service` and `user`.
/// Whether the platform store can be reached is up to the machine, so
/// nothing is stated of the result.
#[verifier::external_body]
fn open_entry(service: &str, user: &str) -> (r: Result<keyring::Entry, KeyStoreError>) {
    match keyring::Entry::new(service, user) {
        Ok(entry) => Ok(entry),
        Err(e) => Err(KeyStoreError { missing: matches!(e, keyring::Error::NoEntry), text: e.to_string() }),
    }
}

/// `keyring::Entry::get_password`: the secret stored for the entry. What is
/// stored is up to the machine, so nothing is stated of the result.
#[verifier::external_body]
fn read_password(entry: &keyring::Entry) -> (r: Result<String, KeyStoreError>) {
    match entry.get_password() {
        Ok(password) => Ok(password),
        Err(e) => Err(KeyStoreError { missing: matches!(e, keyring::Error::NoEntry), text: e.to_string() }),
    }
}

/// `keyring::Entry::set_password`: stores a secret for the entry; whether
/// the store accepts it is up to the machine.
#[verifier::external_body]
fn write_password(entry: &keyring::Entry, password: &str) -> (r: Result<(), KeyStoreError>) {
    match entry.set_password(password) {
        Ok(()) => Ok(()),
        Err(e) => Err(KeyStoreError { missing: matches!(e, keyring::Error::NoEntry), text: e.to_string() }),
    }
}

/// `keyring::Entry::delete_credential`: removes the entry's secret; whether
/// there was one is up to the machine.
#[verifier::external_body]
fn remove_password(entry: &keyring::Entry) -> (r: Result<(), KeyStoreError>) {
    match entry.delete_credential() {
        Ok(()) => Ok(()),
        Err(e) => Err(KeyStoreError { missing: matches!(e, keyring::Error::NoEntry), text: e.to_string() }),
    }
}

/// What one keychain lookup gave.
#[derive(Debug, Clone)]
pub enum KeyLookup {
    /// The entry holds this secret.
    Found(String),
    /// The entry could be opened but holds no readable secret.
    Missing,
    /// The entry could not be opened; the keychain's description of why.
    Unreachable(String),
}

/// The keychain user under which a profile's key is kept.
pub open spec fn key_user(profile_id: Seq<char>) -> Seq<char> {
    "api-key:"@ + profile_id
}

/// The key user name for a profile.
pub fn key_user_for(profile_id: &str) -> (r: String)
    ensures
        r@ == key_user(profile_id@),
{
    prefixed("api-key:", profile_id)
}

/// Looks up the secret kept under `service` and `user`: found, missing, or
/// the keychain's reason it could not open the entry. What the keychain
/// holds, and whether it can be reached, is up to the machine, so nothing is
/// stated of the result.
pub fn lookup_key(service: &str, user: &str) -> (r: KeyLookup) {
    match open_entry(service, user) {
        Err(e) => KeyLookup::Unreachable(e.text),
        Ok(entry) => match read_password(&entry) {
            Ok(password) => KeyLookup::Found(password),
            Err(_) => KeyLookup::Missing,
        },
    }
}

/// The first key found, searching the current keychain service, then the
/// legacy per-profile entry, then (for the default profile only) the legacy
/// global entry.
pub open spec fn first_key(
    current: KeyLookup,
    legacy_profile: KeyLookup,
    legacy_global: KeyLookup,
    is_default: bool,
) -> Option<Seq<char>> {
    match current {
        KeyLookup::Found(k) => Some(k@),
        _ => match legacy_profile {
            KeyLookup::Found(k) => Some(k@),
            _ => if is_default {
                match legacy_global {
                    KeyLookup::Found(k) => Some(k@),
                    _ => None,
                }
            } else {
                None
            },
        },
    }
}

/// Whether some lookup for the profile found a key.
pub open spec fn key_found(profile_id: Seq<char>, current: KeyLookup, legacy_profile: KeyLookup, legacy_global: KeyLookup) -> bool {
    first_key(current, legacy_profile, legacy_global, profile_id == "default"@) is Some
}

/// What a request for a profile's API key comes to.
pub enum KeyOutcome {
    /// This key.
    Key(Seq<char>),
    /// An empty key: the provider needs none and none is stored.
    Blank,
    /// The current keychain entry could not be opened.
    EntryError(Seq<char>),
    /// The provider needs a key and none is stored.
    NotFound,
}

/// The outcome of a key request, given what each lookup gave. A provider
/// that needs no key gets the first key found, else an empty one. One that
/// needs a key fails when the current entry cannot be opened, and when no
/// entry holds a key.
pub open spec fn key_outcome(
    requires_key: bool,
    profile_id: Seq<char>,
    current: KeyLookup,
    legacy_profile: KeyLookup,
    legacy_global: KeyLookup,
) -> KeyOutcome {
    let found = first_key(current, legacy_profile, legacy_global, profile_id == "default"@);
    if !requires_key {
        match found {
            Some(k) => KeyOutcome::Key(k),
            None => KeyOutcome::Blank,
        }
    } else {
        match current {
            KeyLookup::Unreachable(t) => KeyOutcome::EntryError(t@),
            _ => match found {
                Some(k) => KeyOutcome::Key(k),
                None => KeyOutcome::NotFound,
            },
        }
    }
}

/// Whether a key request's result is what `key_outcome` says.
pub open spec fn key_result_matches(r: Result<String, AppError>, profile_id: Seq<char>, o: KeyOutcome) -> bool {
    match o {
        KeyOutcome::Key(k) => r is Ok && r->Ok_0@ == k,
        KeyOutcome::Blank => r is Ok && r->Ok_0@ == Seq::<char>::empty(),
        KeyOutcome::EntryError(t) => r is Err && r->Err_0 is Crypto && r->Err_0->Crypto_0@ == "Keychain error: "@ + t,
        KeyOutcome::NotFound => r is Err && r->Err_0 is Config && r->Err_0->Config_0@
            == "API key not found in keychain for profile '"@ + profile_id + "'"@,
    }
}

/// Whether `r` is what a key request comes to when the lookups gave `current`,
/// `legacy_profile` and `legacy_global`.
pub open spec fn key_request_matches(
    r: Result<String, AppError>,
    requires_key: bool,
    profile_id: Seq<char>,
    current: KeyLookup,
    legacy_profile: KeyLookup,
    legacy_global: KeyLookup,
) -> bool {
    key_result_matches(r, profile_id, key_outcome(requires_key, profile_id, current, legacy_profile, legacy_global))
}

/// Decides a key request from what each keychain lookup gave.
pub fn resolve_api_key(
    requires_key: bool,
    profile_id: &str,
    current: KeyLookup,
    legacy_profile: KeyLookup,
    legacy_global: KeyLookup,
) -> (r: Result<String, AppError>)
    ensures
        key_result_matches(
            r,
            profile_id@,
            key_outcome(requires_key, profile_id@, current, legacy_profile, legacy_global),
        ),
{
    let is_default = text::str_eq(profile_id, DEFAULT_PROFILE_ID);
    proof {
        reveal_strlit("default");
    }
    if requires_key {
        if let KeyLookup::Unreachable(t) = &current {
            return Err(AppError::Crypto(prefixed("Keychain error: ", t.as_str())));
        }
    }
    let found: Option<String> = match current {
        KeyLookup::Found(k) => Some(k),
        _ => match legacy_profile {
            KeyLookup::Found(k) => Some(k),
            _ => if is_default {
                match legacy_global {
                    KeyLookup::Found(k) => Some(k),
                    _ => None,
                }
            } else {
                None
            },
        },
    };
    match found {
        Some(k) => Ok(k),
        None => if requires_key {
            let mut m = prefixed("API key not found in keychain for profile '", profile_id);
            m.append("'");
            Err(AppError::Config(m))
        } else {
            Ok(String::new())
        },
    }
}

/// Whether some keychain entry holds a key for the profile.
pub fn key_present(
    profile_id: &str,
    current: &KeyLookup,
    legacy_profile: &KeyLookup,
    legacy_global: &KeyLookup,
) -> (r: bool)
    ensures
        r == key_found(profile_id@, *current, *legacy_profile, *legacy_global),
{
    let is_default = text::str_eq(profile_id, DEFAULT_PROFILE_ID);
    proof {
        reveal_strlit("default");
    }
    match current {
        KeyLookup::Found(_) => true,
        _ => match legacy_profile {
            KeyLookup::Found(_) => true,
            _ => is_default && matches!(legacy_global, KeyLookup::Found(_)),
        },
    }
}

/// The keychain entries (service, user) that may hold a profile's key, in
/// the order they are tried: the current `voxverse` entry of the profile,
/// the legacy `speakmate` entry of the profile, and, for the default profile
/// only, the legacy global `speakmate` entry `api-key`. New keys are written
/// to the first.
pub open spec fn key_entry_list(profile_id: Seq<char>) -> Seq<(Seq<char>, Seq<char>)> {
    seq![("voxverse"@, key_user(profile_id)), ("speakmate"@, key_user(profile_id))] + if profile_id
        == DEFAULT_PROFILE_ID@ {
        seq![("speakmate"@, "api-key"@)]
    } else {
        Seq::<(Seq<char>, Seq<char>)>::empty()
    }
}

/// The keychain entries of a profile (`key_entry_list`).
pub fn key_entries(profile_id: &str) -> (r: Vec<(String, String)>)
    ensures
        r@.map_values(|e: (String, String)| (e.0@, e.1@)) == key_entry_list(profile_id@),
        r@.len() == key_entry_list(profile_id@).len(),
        2 <= r@.len() <= 3,
{
    let mut r: Vec<(String, String)> = Vec::new();
    r.push((text::owned("voxverse"), key_user_for(profile_id)));
    r.push((text::owned("speakmate"), key_user_for(profile_id)));
    let is_default = text::str_eq(profile_id, DEFAULT_PROFILE_ID);
    if is_default {
        r.push((text::owned("speakmate"), text::owned("api-key")));
    }
    proof {
        assert(r@.map_values(|e: (String, String)| (e.0@, e.1@)) =~= key_entry_list(profile_id@));
    }
    r
}

/// How many of a profile's entries are looked at: the next only while none
/// before it held a key, the last only for the default profile.
pub open spec fn entries_asked(profile_id: Seq<char>, current: KeyLookup, legacy_profile: KeyLookup) -> nat {
    if current is Found {
        1
    } else if legacy_profile is Found || profile_id != DEFAULT_PROFILE_ID@ {
        2
    } else {
        3
    }
}

/// Looks the profile's key up in the keychain, at the entries of
/// `key_entries` in order, each only while none before it held a key (a
/// lookup not made reads as `Missing`). The ghost part lists the entries
/// looked at: lookup `k` was made at entry `k`.
fn lookup_profile_keys(profile_id: &str) -> (r: (KeyLookup, KeyLookup, KeyLookup, Ghost<Seq<(Seq<char>, Seq<char>)>>))
    ensures
        r.3@ == key_entry_list(profile_id@).take(entries_asked(profile_id@, r.0, r.1) as int),
        r.0 is Found ==> r.1 is Missing && r.2 is Missing,
        r.1 is Found ==> r.2 is Missing,
        profile_id@ != DEFAULT_PROFILE_ID@ ==> r.2 is Missing,
{
    let entries = key_entries(profile_id);
    let ghost list = key_entry_list(profile_id@);
    proof {
        assert(entries@.map_values(|e: (String, String)| (e.0@, e.1@))[0] == list[0]);
        assert(entries@.map_values(|e: (String, String)| (e.0@, e.1@))[1] == list[1]);
    }
    let current = lookup_key(entries[0].0.as_str(), entries[0].1.as_str());
    let ghost asked = seq![(entries@[0].0@, entries@[0].1@)];
    if matches!(current, KeyLookup::Found(_)) {
        proof {
            assert(asked =~= list.take(1));
        }
        return (current, KeyLookup::Missing, KeyLookup::Missing, Ghost(asked));
    }
    let legacy_profile = lookup_key(entries[1].0.as_str(), entries[1].1.as_str());
    let ghost asked = asked.push((entries@[1].0@, entries@[1].1@));
    if matches!(legacy_profile, KeyLookup::Found(_)) || entries.len() < 3 {
        proof {
            assert(asked =~= list.take(2));
        }
        return (current, legacy_profile, KeyLookup::Missing, Ghost(asked));
    }
    proof {
        assert(entries@.map_values(|e: (String, String)| (e.0@, e.1@))[2] == list[2]);
    }
    let legacy_global = lookup_key(entries[2].0.as_str(), entries[2].1.as_str());
    let ghost asked = asked.push((entries@[2].0@, entries@[2].1@));
    proof {
        assert(asked =~= list.take(3));
    }
    (current, legacy_profile, legacy_global, Ghost(asked))
}

/// Whether the keychain holds an API key for the profile: `key_present` of
/// what the lookups of `lookup_profile_keys` gave. What the keychain holds
/// is up to the machine, so nothing is stated of the answer.
pub fn has_api_key_for_profile(profile_id: &str) -> (r: bool) {
    let (c, l, g, _) = lookup_profile_keys(profile_id);
    key_present(profile_id, &c, &l, &g)
}

/// What removing a profile's key comes to, given what the keychain reported
/// on opening the entry and on removing its secret: success when the entry
/// was removed or held nothing, else a `Crypto` error.
pub open spec fn deletion_matches(
    r: Result<(), AppError>,
    opened: Result<(), KeyStoreError>,
    removed: Result<(), KeyStoreError>,
) -> bool {
    match opened {
        Err(e) => r is Err && r->Err_0 is Crypto && r->Err_0->Crypto_0@ == "Keychain error: "@ + e.text@,
        Ok(_) => match removed {
            Ok(_) => r is Ok,
            Err(e) => if e.missing {
                r is Ok
            } else {
                r is Err && r->Err_0 is Crypto && r->Err_0->Crypto_0@ == "Failed to delete keychain entry: "@
                    + e.text@
            },
        },
    }
}

/// Decides a key removal from what the keychain reported.
pub fn deletion_result(opened: Result<(), KeyStoreError>, removed: Result<(), KeyStoreError>) -> (r: Result<(), AppError>)
    ensures
        deletion_matches(r, opened, removed),
{
    match opened {
        Err(e) => Err(AppError::Crypto(prefixed("Keychain error: ", e.text.as_str()))),
        Ok(()) => match removed {
            Ok(()) => Ok(()),
            Err(e) => if e.missing {
                Ok(())
            } else {
                Err(AppError::Crypto(prefixed("Failed to delete keychain entry: ", e.text.as_str())))
            },
        },
    }
}

/// Removes the profile's key from its current entry (the first of
/// `key_entries`); a missing key is no error. The keychain's answers are taken by `deletion_result`.
pub fn delete_api_key_for_profile(profile_id: &str) -> (r: Result<(), AppError>)
    ensures
        exists|o: Result<(), KeyStoreError>, d: Result<(), KeyStoreError>| #[trigger] deletion_matches(r, o, d),
{
    let entries = key_entries(profile_id);
    proof {
        assert(entries@.map_values(|e: (String, String)| (e.0@, e.1@))[0] == key_entry_list(profile_id@)[0]);
    }
    match open_entry(entries[0].0.as_str(), entries[0].1.as_str()) {
        Err(e) => {
            let r = deletion_result(Err(e), Ok(()));
            proof {
                assert(deletion_matches(r, Err(e), Ok(())));
            }
            r
        },
        Ok(entry) => {
            let removed = remove_password(&entry);
            let r = deletion_result(Ok(()), removed);
            proof {
                assert(deletion_matches(r, Ok(()), removed));
            }
            r
        },
    }
}

// ───────────────────────── the active configuration ─────────────────────────

/// The provider settings of the active profile. The API key itself stays in
/// the keychain; `has_keychain_entry` records whether one is there.
#[derive(Debug, Clone)]
pub struct ApiConfig {
    pub profile_id: String,
    pub profile_name: String,
    pub provider: AiProvider,
    pub base_url: String,
    pub model: String,
    pub has_keychain_entry: bool,
}

impl Default for ApiConfig {
    fn default() -> (r: ApiConfig)
        ensures
            r.profile_id@ == "default"@,
            r.profile_name@ == "Default"@,
            r.provider == AiProvider::OpenAi,
            r.base_url@ == "https://api.openai.com/v1"@,
            r.model@ == "gpt-4o-mini"@,
            !r.has_keychain_entry,
    {
        ApiConfig {
            profile_id: text::owned(DEFAULT_PROFILE_ID),
            profile_name: text::owned("Default"),
            provider: AiProvider::OpenAi,
            base_url: text::owned("https://api.openai.com/v1"),
            model: text::owned("gpt-4o-mini"),
            has_keychain_entry: false,
        }
    }
}

impl ApiConfig {
    /// The profile's API key. A provider that needs no key gets the first
    /// key the keychain holds for the profile, or an empty one; a provider
    /// that needs a key fails when the current keychain entry cannot be
    /// opened or when no entry holds a key. What the keychain holds is up to
    /// the machine; the result is `resolve_api_key` of what it gave.
    pub fn get_api_key(&self) -> (r: Result<String, AppError>)
        ensures
            exists|c: KeyLookup, l: KeyLookup, g: KeyLookup|
                #[trigger] key_request_matches(r, self.provider.requires_key_spec(), self.profile_id@, c, l, g),
    {
        let (c, l, g, _) = lookup_profile_keys(self.profile_id.as_str());
        let requires_key = self.provider.requires_api_key();
        let r = resolve_api_key(requires_key, self.profile_id.as_str(), c, l, g);
        proof {
            assert(key_request_matches(r, requires_key, self.profile_id@, c, l, g));
        }
        r
    }

    /// Stores `plaintext_key` as the profile's key in its current entry (the
    /// first of `key_entries`) and records that the profile has one. On failure the
    /// configuration is unchanged and the error says whether the entry
    /// could not be opened or the key could not be written.
    pub fn set_api_key(&mut self, plaintext_key: &str) -> (r: Result<(), AppError>)
        ensures
            final(self).profile_id == old(self).profile_id,
            final(self).profile_name == old(self).profile_name,
            final(self).provider == old(self).provider,
            final(self).base_url == old(self).base_url,
            final(self).model == old(self).model,
            r is Ok ==> final(self).has_keychain_entry,
            r is Err ==> final(self).has_keychain_entry == old(self).has_keychain_entry,
            r matches Err(e) ==> e is Crypto && (text::has_prefix(e->Crypto_0@, "Keychain error: "@)
                || text::has_prefix(e->Crypto_0@, "Failed to save to keychain: "@)),
    {
        let entries = key_entries(self.profile_id.as_str());
        let entry = match open_entry(entries[0].0.as_str(), entries[0].1.as_str()) {
            Ok(entry) => entry,
            Err(e) => {
                let m = prefixed("Keychain error: ", e.text.as_str());
                proof {
                    assert(m@.subrange(0, "Keychain error: "@.len() as int) =~= "Keychain error: "@);
                }
                return Err(AppError::Crypto(m));
            },
        };
        match write_password(&entry, plaintext_key) {
            Ok(()) => {
                self.has_keychain_entry = true;
                Ok(())
            },
            Err(e) => {
                let m = prefixed("Failed to save to keychain: ", e.text.as_str());
                proof {
                    assert(m@.subrange(0, "Failed to save to keychain: "@.len() as int)
                        =~= "Failed to save to keychain: "@);
                }
                Err(AppError::Crypto(m))
            },
        }
    }

    /// Refreshes `has_keychain_entry` from the keychain (whatever it holds,
    /// which is up to the machine); nothing else changes.
    pub fn check_has_key(&mut self)
        ensures
            final(self).profile_id == old(self).profile_id,
            final(self).profile_name == old(self).profile_name,
            final(self).provider == old(self).provider,
            final(self).base_url == old(self).base_url,
            final(self).model == old(self).model,
    {
        let found = has_api_key_for_profile(self.profile_id.as_str());
        self.has_keychain_entry = found;
    }
}

/// Key lookups that find a key (`key_found`, which `has_api_key_for_profile`
/// reports through `key_present`) make a key
/// request succeed with a key found in the keychain, unless the provider
/// needs a key and the current entry cannot be opened; when they find none,
/// a request for a provider that needs a key fails.
pub proof fn lemma_found_key_is_served(
    requires_key: bool,
    profile_id: Seq<char>,
    current: KeyLookup,
    legacy_profile: KeyLookup,
    legacy_global: KeyLookup,
)
    ensures
        key_found(profile_id, current, legacy_profile, legacy_global) && !(requires_key && current is Unreachable)
            ==> key_outcome(requires_key, profile_id, current, legacy_profile, legacy_global) == KeyOutcome::Key(
            first_key(current, legacy_profile, legacy_global, profile_id == "default"@)->Some_0,
        ),
        !key_found(profile_id, current, legacy_profile, legacy_global) && requires_key ==> !(key_outcome(
            requires_key,
            profile_id,
            current,
            legacy_profile,
            legacy_global,
        ) is Key),
{
}

} // verus!
