//! Provider profiles: validating what the user enters, applying a stored
//! profile to the running configuration, and describing a configuration.

use vstd::prelude::*;
use crate::cli::opt_view;
use crate::error::{prefixed, AppError};
use crate::repositories::config::ConfigProfileRecord;
use crate::services::llm::{chat_message, ChatMessage};
use crate::state::{self, AiProvider, ApiConfig};
use crate::text;

verus! {

/// A chat message sent from the user interface.
#[derive(Debug, Clone)]
pub struct MessagePayload {
    pub role: String,
    pub content: String,
}

/// The messages a chat request sends: the system prompt, then the user
/// interface's messages in order, each with its role and content.
pub fn chat_request_messages(system_prompt: String, messages: &[MessagePayload]) -> (r: Vec<ChatMessage>)
    ensures
        r@.len() == messages@.len() + 1,
        r@[0].role@ == "system"@,
        r@[0].content@ == system_prompt@,
        forall|i: int|
            0 <= i < messages@.len() ==> #[trigger] r@[i + 1].role@ == messages@[i].role@ && r@[i
                + 1].content@ == messages@[i].content@,
{
    let mut out: Vec<ChatMessage> = Vec::new();
    out.push(chat_message("system", system_prompt));
    let mut i: usize = 0;
    while i < messages.len()
        invariant
            i <= messages@.len(),
            out@.len() == i + 1,
            out@[0].role@ == "system"@,
            out@[0].content@ == system_prompt@,
            forall|j: int|
                0 <= j < i ==> #[trigger] out@[j + 1].role@ == messages@[j].role@ && out@[j
                    + 1].content@ == messages@[j].content@,
        decreases messages.len() - i,
    {
        let m = &messages[i];
        out.push(ChatMessage { role: m.role.clone(), content: m.content.clone() });
        i = i + 1;
    }
    out
}

/// One step of a streamed reply: a token, or the end of the reply.
#[derive(Debug, Clone)]
pub struct StreamEvent {
    pub token: String,
    pub done: bool,
}

/// The running configuration as the user interface shows it.
#[derive(Debug, Clone)]
pub struct ConfigInfo {
    pub active_profile_id: String,
    pub active_profile_name: String,
    pub provider: AiProvider,
    pub base_url: String,
    pub model: String,
    pub has_api_key: bool,
    pub requires_api_key: bool,
    pub supports_stt: bool,
}

/// A stored profile as the user interface lists it.
#[derive(Debug, Clone)]
pub struct ConfigProfileInfo {
    pub id: String,
    pub name: String,
    pub provider: AiProvider,
    pub base_url: String,
    pub model: String,
    pub is_default: bool,
    pub has_api_key: bool,
    pub requires_api_key: bool,
    pub supports_stt: bool,
}

/// The provider of a stored profile: the one its stored name gives, else the
/// one its base URL points at.
pub open spec fn profile_provider(p: ConfigProfileRecord) -> AiProvider {
    match state::parse_provider(p.provider@) {
        Some(x) => x,
        None => state::provider_for_url(p.base_url@),
    }
}

fn provider_of(profile: &ConfigProfileRecord) -> (r: AiProvider)
    ensures
        r == profile_provider(*profile),
{
    match AiProvider::from_stored_value(profile.provider.as_str()) {
        Some(p) => p,
        None => AiProvider::infer_from_base_url(profile.base_url.as_str()),
    }
}

/// Makes a stored profile the running configuration; whether its key is in
/// the keychain is left as it was.
pub fn apply_profile_to_runtime(config: &mut ApiConfig, profile: &ConfigProfileRecord)
    ensures
        final(config).profile_id@ == profile.id@,
        final(config).profile_name@ == profile.name@,
        final(config).provider == profile_provider(*profile),
        final(config).base_url@ == profile.base_url@,
        final(config).model@ == profile.model@,
        final(config).has_keychain_entry == old(config).has_keychain_entry,
{
    config.profile_id = profile.id.clone();
    config.profile_name = profile.name.clone();
    config.provider = provider_of(profile);
    config.base_url = profile.base_url.clone();
    config.model = profile.model.clone();
}

/// How the running configuration is shown.
pub fn config_info_from_runtime(config: &ApiConfig) -> (r: ConfigInfo)
    ensures
        r.active_profile_id@ == config.profile_id@,
        r.active_profile_name@ == config.profile_name@,
        r.provider == config.provider,
        r.base_url@ == config.base_url@,
        r.model@ == config.model@,
        r.has_api_key == config.has_keychain_entry,
        r.requires_api_key == config.provider.requires_key_spec(),
        r.supports_stt == config.provider.supports_stt_spec(),
{
    ConfigInfo {
        active_profile_id: config.profile_id.clone(),
        active_profile_name: config.profile_name.clone(),
        provider: config.provider,
        base_url: config.base_url.clone(),
        model: config.model.clone(),
        has_api_key: config.has_keychain_entry,
        requires_api_key: config.provider.requires_api_key(),
        supports_stt: config.provider.supports_whisper_stt(),
    }
}

/// How a stored profile is listed. Whether it has a key is asked of the
/// keychain, whose contents are up to the machine, so nothing is stated of
/// `has_api_key`.
pub fn profile_info_from_record(profile: ConfigProfileRecord) -> (r: ConfigProfileInfo)
    ensures
        r.id@ == profile.id@,
        r.name@ == profile.name@,
        r.provider == profile_provider(profile),
        r.base_url@ == profile.base_url@,
        r.model@ == profile.model@,
        r.is_default == profile.is_default,
        r.requires_api_key == profile_provider(profile).requires_key_spec(),
        r.supports_stt == profile_provider(profile).supports_stt_spec(),
{
    let provider = provider_of(&profile);
    let has_api_key = state::has_api_key_for_profile(profile.id.as_str());
    ConfigProfileInfo {
        id: profile.id,
        name: profile.name,
        provider,
        base_url: profile.base_url,
        model: profile.model,
        is_default: profile.is_default,
        has_api_key,
        requires_api_key: provider.requires_api_key(),
        supports_stt: provider.supports_whisper_stt(),
    }
}

/// The longest profile name, in characters.
pub const MAX_PROFILE_NAME_CHARS: usize = 80;

/// A profile name without surrounding whitespace, which must be neither
/// empty nor longer than 80 characters.
pub open spec fn profile_name_verdict(name: Seq<char>) -> Result<Seq<char>, Seq<char>> {
    let n = text::trim(name);
    if n.len() == 0 {
        Err("Profile name is required."@)
    } else if n.len() > MAX_PROFILE_NAME_CHARS {
        Err("Profile name must be 80 characters or fewer."@)
    } else {
        Ok(n)
    }
}

pub fn validate_profile_name(name: &str) -> (r: Result<&str, String>)
    ensures
        match profile_name_verdict(name@) {
            Ok(n) => r is Ok && r->Ok_0@ == n,
            Err(m) => r is Err && r->Err_0@ == m,
        },
{
    let n = text::trim_str(name);
    let count = n.unicode_len();
    if count == 0 {
        return Err(text::owned("Profile name is required."));
    }
    if count > MAX_PROFILE_NAME_CHARS {
        return Err(text::owned("Profile name must be 80 characters or fewer."));
    }
    Ok(n)
}

/// A base URL and model without surrounding whitespace: the URL must be
/// present and start with `http://` or `https://`, the model must be present.
pub open spec fn provider_fields_verdict(base_url: Seq<char>, model: Seq<char>) -> Result<(Seq<char>, Seq<char>), Seq<char>> {
    let u = text::trim(base_url);
    let m = text::trim(model);
    if u.len() == 0 {
        Err("API base URL is required."@)
    } else if !text::has_prefix(u, "https://"@) && !text::has_prefix(u, "http://"@) {
        Err("API base URL must start with http:// or https://."@)
    } else if m.len() == 0 {
        Err("Model is required."@)
    } else {
        Ok((u, m))
    }
}

pub fn validate_provider_fields(base_url: &str, model: &str) -> (r: Result<(String, String), String>)
    ensures
        match provider_fields_verdict(base_url@, model@) {
            Ok((u, m)) => r is Ok && r->Ok_0.0@ == u && r->Ok_0.1@ == m,
            Err(e) => r is Err && r->Err_0@ == e,
        },
{
    let u = text::trim_str(base_url);
    if u.unicode_len() == 0 {
        return Err(text::owned("API base URL is required."));
    }
    if !text::starts_with(u, "https://") && !text::starts_with(u, "http://") {
        return Err(text::owned("API base URL must start with http:// or https://."));
    }
    let m = text::trim_str(model);
    if m.unicode_len() == 0 {
        return Err(text::owned("Model is required."));
    }
    Ok((text::owned(u), text::owned(m)))
}

/// A profile name must not already belong to another profile. `holder` is
/// the id of the profile that has the name, if one has; `current_profile_id`
/// the profile being renamed, if any.
pub fn ensure_unique_profile_name(holder: Option<&str>, profile_name: &str, current_profile_id: Option<&str>) -> (r:
    Result<(), String>)
    ensures
        match holder {
            Some(h) => match current_profile_id {
                Some(c) if c@ == h@ => r is Ok,
                _ => r is Err && r->Err_0@ == "A config profile named '"@ + profile_name@ + "' already exists."@,
            },
            None => r is Ok,
        },
{
    if let Some(h) = holder {
        let same = match current_profile_id {
            Some(c) => text::str_eq(c, h),
            None => false,
        };
        if !same {
            let mut m = prefixed("A config profile named '", profile_name);
            m.append("' already exists.");
            return Err(m);
        }
    }
    Ok(())
}

/// A new profile for a provider that needs a key must be given one.
pub fn check_new_profile_key(provider: AiProvider, api_key: &str) -> (r: Result<(), String>)
    ensures
        provider.requires_key_spec() && text::trim(api_key@).len() == 0 ==> r is Err && r->Err_0@
            == "This provider requires an API key for a new profile."@,
        !(provider.requires_key_spec() && text::trim(api_key@).len() == 0) ==> r is Ok,
{
    if provider.requires_api_key() && text::trim_str(api_key).unicode_len() == 0 {
        Err(text::owned("This provider requires an API key for a new profile."))
    } else {
        Ok(())
    }
}

/// Which profile becomes active when `profile` is deleted: none unless it is
/// the active one, in which case the fallback must exist; the default
/// profile cannot be deleted.
pub fn plan_profile_deletion(profile: &ConfigProfileRecord, fallback: Option<ConfigProfileRecord>) -> (r: Result<
    Option<ConfigProfileRecord>,
    String,
>)
    ensures
        profile.id@ == "default"@ ==> r is Err && r->Err_0@ == "The default config profile cannot be deleted."@,
        profile.id@ != "default"@ && !profile.is_default ==> r matches Ok(None),
        profile.id@ != "default"@ && profile.is_default && fallback is None ==> r is Err && r->Err_0@
            == "Cannot delete the only remaining config profile."@,
        profile.id@ != "default"@ && profile.is_default && fallback is Some ==> r == Ok::<
            Option<ConfigProfileRecord>,
            String,
        >(fallback),
{
    if text::str_eq(profile.id.as_str(), state::DEFAULT_PROFILE_ID) {
        proof {
            reveal_strlit("default");
        }
        return Err(text::owned("The default config profile cannot be deleted."));
    }
    proof {
        reveal_strlit("default");
    }
    if !profile.is_default {
        return Ok(None);
    }
    match fallback {
        Some(f) => Ok(Some(f)),
        None => Err(text::owned("Cannot delete the only remaining config profile.")),
    }
}

/// Saves new provider settings into the running configuration: the fields
/// are validated first (nothing changes when they are refused), then a
/// non-empty key is stored in the keychain.
pub fn apply_saved_config(config: &mut ApiConfig, provider: AiProvider, base_url: &str, api_key: &str, model: &str) -> (r:
    Result<(), String>)
    ensures
        provider_fields_verdict(base_url@, model@) matches Err(e) ==> r is Err && r->Err_0@ == e && *final(config)
            == *old(config),
        provider_fields_verdict(base_url@, model@) matches Ok((u, m)) ==> {
            &&& final(config).provider == provider
            &&& final(config).base_url@ == u
            &&& final(config).model@ == m
            &&& final(config).profile_id == old(config).profile_id
            &&& final(config).profile_name == old(config).profile_name
            &&& api_key@.len() == 0 ==> r is Ok && final(config).has_keychain_entry == old(config).has_keychain_entry
            &&& api_key@.len() > 0 ==> match r {
                Ok(_) => final(config).has_keychain_entry,
                Err(msg) => keychain_failure(msg@) && final(config).has_keychain_entry == old(
                    config,
                ).has_keychain_entry,
            }
        },
{
    let (u, m) = match validate_provider_fields(base_url, model) {
        Ok(pair) => pair,
        Err(e) => return Err(e),
    };
    config.provider = provider;
    config.base_url = u;
    config.model = m;
    if api_key.unicode_len() > 0 {
        match config.set_api_key(api_key) {
            Ok(()) => {},
            Err(e) => {
                let m = e.to_string();
                proof {
                    lemma_keychain_failure_text(e);
                }
                return Err(m);
            },
        }
    }
    Ok(())
}

/// A keychain failure reported by `ApiConfig::set_api_key` reads as one.
proof fn lemma_keychain_failure_text(e: AppError)
    requires
        e is Crypto && (text::has_prefix(e->Crypto_0@, "Keychain error: "@) || text::has_prefix(
            e->Crypto_0@,
            "Failed to save to keychain: "@,
        )),
    ensures
        keychain_failure(crate::error::display(e)),
{
    reveal_strlit("Crypto error: ");
    reveal_strlit("Keychain error: ");
    reveal_strlit("Failed to save to keychain: ");
    reveal_strlit("Crypto error: Keychain error: ");
    reveal_strlit("Crypto error: Failed to save to keychain: ");
    let d = e->Crypto_0@;
    if text::has_prefix(d, "Keychain error: "@) {
        text::lemma_prefix_extends("Crypto error: "@, d, "Keychain error: "@);
        assert("Crypto error: "@ + "Keychain error: "@ =~= "Crypto error: Keychain error: "@);
    } else {
        text::lemma_prefix_extends("Crypto error: "@, d, "Failed to save to keychain: "@);
        assert("Crypto error: "@ + "Failed to save to keychain: "@ =~= "Crypto error: Failed to save to keychain: "@);
    }
}

/// Whether an error text is a keychain failure as `ApiConfig::set_api_key`
/// reports it, read as text.
pub open spec fn keychain_failure(m: Seq<char>) -> bool {
    text::has_prefix(m, "Crypto error: Keychain error: "@) || text::has_prefix(
        m,
        "Crypto error: Failed to save to keychain: "@,
    )
}

/// What creating a profile comes to, apart from its id: the name, its
/// uniqueness (`name_holder` is the id of a profile that already has the
/// name), the provider fields and the key requirement are checked in that
/// order, each failure with its own message; then a non-blank key (trimmed)
/// is stored in the keychain, which may fail.
pub open spec fn profile_config_outcome(
    r: Result<ApiConfig, String>,
    name: Seq<char>,
    name_holder: Option<Seq<char>>,
    provider: AiProvider,
    base_url: Seq<char>,
    api_key: Seq<char>,
    model: Seq<char>,
) -> bool {
    match profile_name_verdict(name) {
        Err(e) => r is Err && r->Err_0@ == e,
        Ok(n) => if name_holder is Some {
            r is Err && r->Err_0@ == "A config profile named '"@ + n + "' already exists."@
        } else {
            match provider_fields_verdict(base_url, model) {
                Err(e) => r is Err && r->Err_0@ == e,
                Ok((u, m)) => if provider.requires_key_spec() && text::trim(api_key).len() == 0 {
                    r is Err && r->Err_0@ == "This provider requires an API key for a new profile."@
                } else {
                    match r {
                        Ok(c) => {
                            &&& c.profile_name@ == n
                            &&& c.provider == provider
                            &&& c.base_url@ == u
                            &&& c.model@ == m
                            &&& c.has_keychain_entry == (text::trim(api_key).len() > 0)
                        },
                        Err(msg) => text::trim(api_key).len() > 0 && keychain_failure(msg@),
                    }
                },
            }
        },
    }
}

/// The configuration of a newly created profile with the given id, before
/// it is saved (`profile_config_outcome`).
pub fn new_profile_config(
    profile_id: String,
    name: &str,
    name_holder: Option<&str>,
    provider: AiProvider,
    base_url: &str,
    api_key: &str,
    model: &str,
) -> (r: Result<ApiConfig, String>)
    ensures
        profile_config_outcome(
            r,
            name@,
            match name_holder {
                Some(h) => Some(h@),
                None => None,
            },
            provider,
            base_url@,
            api_key@,
            model@,
        ),
        r matches Ok(c) ==> c.profile_id@ == profile_id@,
{
    let n = validate_profile_name(name)?;
    ensure_unique_profile_name(name_holder, n, None)?;
    let (u, m) = validate_provider_fields(base_url, model)?;
    check_new_profile_key(provider, api_key)?;
    let mut config = ApiConfig {
        profile_id,
        profile_name: text::owned(n),
        provider,
        base_url: u,
        model: m,
        has_keychain_entry: false,
    };
    let key = text::trim_str(api_key);
    if key.unicode_len() > 0 {
        match config.set_api_key(key) {
            Ok(()) => {},
            Err(e) => {
                let m = e.to_string();
                proof {
                    lemma_keychain_failure_text(e);
                }
                return Err(m);
            },
        }
    }
    Ok(config)
}

/// The configuration of a newly created profile, before it is saved, with a
/// fresh random id of which nothing is stated (`profile_config_outcome`).
pub fn create_profile_config(
    name: &str,
    name_holder: Option<&str>,
    provider: AiProvider,
    base_url: &str,
    api_key: &str,
    model: &str,
) -> (r: Result<ApiConfig, String>)
    ensures
        profile_config_outcome(
            r,
            name@,
            match name_holder {
                Some(h) => Some(h@),
                None => None,
            },
            provider,
            base_url@,
            api_key@,
            model@,
        ),
{
    let profile_id = crate::fresh::new_uuid();
    new_profile_config(profile_id, name, name_holder, provider, base_url, api_key, model)
}

/// Renaming a profile renames the running configuration when it is that
/// profile.
pub fn rename_runtime_profile(config: &mut ApiConfig, profile_id: &str, new_name: &str)
    ensures
        final(config).profile_id == old(config).profile_id,
        final(config).provider == old(config).provider,
        final(config).base_url == old(config).base_url,
        final(config).model == old(config).model,
        final(config).has_keychain_entry == old(config).has_keychain_entry,
        old(config).profile_id@ == profile_id@ ==> final(config).profile_name@ == new_name@,
        old(config).profile_id@ != profile_id@ ==> final(config).profile_name == old(config).profile_name,
{
    if text::str_eq(config.profile_id.as_str(), profile_id) {
        config.profile_name = text::owned(new_name);
    }
}

/// The error for a profile id that matches no stored profile.
pub fn profile_not_found(profile_id: &str) -> (r: String)
    ensures
        r@ == "Config profile '"@ + profile_id@ + "' was not found."@,
{
    let mut m = prefixed("Config profile '", profile_id);
    m.append("' was not found.");
    m
}

/// Accepted provider fields are accepted again as they are.
pub proof fn lemma_provider_fields_idempotent(base_url: Seq<char>, model: Seq<char>)
    ensures
        provider_fields_verdict(base_url, model) matches Ok((u, m)) ==> provider_fields_verdict(u, m) == Ok::<
            (Seq<char>, Seq<char>),
            Seq<char>,
        >((u, m)),
{
    text::lemma_trim_idempotent(base_url);
    text::lemma_trim_idempotent(model);
}

/// An accepted profile name is accepted again as it is, and is never
/// longer than 80 characters.
pub proof fn lemma_profile_name_idempotent(name: Seq<char>)
    ensures
        profile_name_verdict(name) matches Ok(n) ==> profile_name_verdict(n) == Ok::<Seq<char>, Seq<char>>(n) && 0
            < n.len() <= MAX_PROFILE_NAME_CHARS,
{
    text::lemma_trim_idempotent(name);
}

} // verus!
