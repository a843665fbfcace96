use vstd::prelude::*;
use vstd::string::StringExecFns;
use crate::assoc::{assoc_insert, assoc_swap_remove, lookup};
use crate::json::{JVal, JsonNumber, JsonValue, jget, jobj, jstr, json_wf, lemma_object_jv, obj_duplicate, obj_get, obj_insert, obj_remove, ov};
use serde_json::Value;

verus! {

/// Errors of the OpenCode configuration helpers.
pub enum AppError {
    /// The configuration does not have the shape the operation needs.
    Config(String),
}

/// The prefix of a Windows verbatim path, `\\?\`.
pub open spec fn verbatim_prefix() -> Seq<char> {
    seq!['\\', '\\', '?', '\\']
}

/// A Windows verbatim path: joining onto one normalizes the path.
pub open spec fn verbatim_path(s: Seq<char>) -> bool {
    verbatim_prefix().is_prefix_of(s)
}

/// Text whose first characters already differ from `\\?\`: neither it nor anything
/// that starts with it is a verbatim path.
pub open spec fn verbatim_safe(s: Seq<char>) -> bool {
    exists|i: int| 0 <= i < s.len() && i < 4 && #[trigger] s[i] != verbatim_prefix()[i]
}

proof fn lemma_verbatim_safe(s: Seq<char>, t: Seq<char>)
    requires
        verbatim_safe(s),
        s.is_prefix_of(t),
    ensures
        !verbatim_path(t),
{
    let i = choose|i: int| 0 <= i < s.len() && i < 4 && #[trigger] s[i] != verbatim_prefix()[i];
    assert(t[i] == s[i]);
}

/// `r` is the single relative name `child` joined onto `base` as `Path::join` joins them
/// outside verbatim paths: `base`, then a separator (`/`, or `\\` on Windows) unless none
/// is needed, then `child`. No separator is put after an empty `base` or after one that
/// ends in `/`; one is always put after a `base` that ends in anything but `/`, `\\` or `:`.
/// Whether `\\` or `:` at the end counts as a separator depends on the platform.
pub open spec fn path_joined(base: Seq<char>, child: Seq<char>, r: Seq<char>) -> bool {
    &&& (r == base + child || r == base + seq!['/'] + child || r == base + seq!['\\'] + child)
    &&& (base.len() == 0 ==> r == child)
    &&& (base.len() > 0 && base.last() == '/' ==> r == base + child)
    &&& (base.len() > 0 && base.last() != '/' && base.last() != '\\' && base.last() != ':' ==> r != base + child)
}

/// `r` is `b` joined onto the join of `a` onto `base`.
pub open spec fn path_joined_twice(base: Seq<char>, a: Seq<char>, b: Seq<char>, r: Seq<char>) -> bool {
    exists|c: Seq<char>| path_joined(base, a, c) && #[trigger] path_joined(c, b, r)
}

proof fn lemma_joined_prefix(base: Seq<char>, child: Seq<char>, r: Seq<char>)
    requires
        path_joined(base, child, r),
    ensures
        base.is_prefix_of(r),
{
    assert(r.subrange(0, base.len() as int) =~= base);
}

/// Calls `Path::join` on `base` with the single relative name `child` (no separator, no
/// drive, not `.` or `..`) and returns the joined path as text. Unless `base` is a
/// verbatim path, which the join normalizes, the result is `path_joined`: `base`, the
/// platform's separator where one is needed, and `child`.
#[verifier::external_body]
fn path_join(base: &str, child: &str) -> (r: String)
    requires
        child@.len() > 0,
        child@ != "."@,
        child@ != ".."@,
        forall|i: int| 0 <= i < child@.len() ==> #[trigger] child@[i] != '/' && child@[i] != '\\' && child@[i] != ':',
    ensures
        !verbatim_path(base@) ==> path_joined(base@, child@, r@),
{
    std::path::Path::new(base).join(child).to_string_lossy().into_owned()
}

/// The OpenCode configuration directory: a directory set for tests wins, then the
/// directory set in the settings, then `.config/opencode` under the home directory,
/// then `.config/opencode` relative to the working directory.
pub fn get_opencode_dir(test_dir: Option<String>, override_dir: Option<String>, home_dir: Option<String>) -> (r: String)
    ensures
        test_dir is Some ==> r@ == test_dir.unwrap()@,
        test_dir is None && override_dir is Some ==> r@ == override_dir.unwrap()@,
        test_dir is None && override_dir is None && home_dir is Some && verbatim_safe(home_dir.unwrap()@)
            ==> path_joined_twice(home_dir.unwrap()@, ".config"@, "opencode"@, r@),
        test_dir is None && override_dir is None && home_dir is None ==> path_joined(".config"@, "opencode"@, r@),
{
    proof {
        reveal_strlit(".config");
        reveal_strlit("opencode");
        reveal_strlit(".");
        reveal_strlit("..");
        assert("opencode"@.len() != "."@.len() && "opencode"@.len() != ".."@.len());
        assert(".config"@.len() != "."@.len() && ".config"@.len() != ".."@.len());
    }
    match test_dir {
        Some(d) => d,
        None => match override_dir {
            Some(d) => d,
            None => match home_dir {
                Some(h) => {
                    let c = path_join(h.as_str(), ".config");
                    proof {
                        if verbatim_safe(h@) {
                            lemma_verbatim_safe(h@, h@);
                            lemma_joined_prefix(h@, ".config"@, c@);
                            lemma_verbatim_safe(h@, c@);
                        }
                    }
                    let r = path_join(c.as_str(), "opencode");
                    proof {
                        if verbatim_safe(h@) {
                            assert(path_joined(c@, "opencode"@, r@));
                        }
                    }
                    r
                },
                None => {
                    let c = path_join(".config", "opencode");
                    proof {
                        assert(".config"@[0] != verbatim_prefix()[0]);
                        assert(!verbatim_path(".config"@));
                    }
                    c
                },
            },
        },
    }
}

/// The path of `opencode.json` directly inside the given directory.
pub fn get_opencode_config_path(dir: &str) -> (r: String)
    ensures
        !verbatim_path(dir@) ==> path_joined(dir@, "opencode.json"@, r@),
{
    proof {
        reveal_strlit("opencode.json");
        reveal_strlit(".");
        reveal_strlit("..");
        assert("opencode.json"@.len() != "."@.len() && "opencode.json"@.len() != ".."@.len());
    }
    path_join(dir, "opencode.json")
}

/// The configuration used when no file exists yet: only the schema reference.
pub open spec fn default_config() -> JVal {
    JVal::Object(seq![("$schema"@, JVal::Str("https://opencode.ai/config.json"@))])
}

/// The configuration used when no file exists yet.
pub fn default_opencode_config() -> (r: JsonValue)
    ensures
        r.jv() == default_config(),
        json_wf(r.jv()),
{
    let mut entries: Vec<(String, JsonValue)> = Vec::new();
    entries.push((String::from_str("$schema"), JsonValue::Str(String::from_str("https://opencode.ai/config.json"))));
    proof {
        lemma_object_jv(entries);
        let o = seq![("$schema"@, JVal::Str("https://opencode.ai/config.json"@))];
        assert(ov(entries@) =~= o);
        assert(json_wf(o[0].1));
    }
    JsonValue::Object(entries)
}

#[verifier::external_type_specification]
#[verifier::external_body]
pub struct ExSerdeJsonValue(serde_json::Value);

#[verifier::external_type_specification]
#[verifier::external_body]
pub struct ExSerdeJsonError(serde_json::Error);

/// What `serde_json::from_str` makes of a text as a JSON document: the document, or
/// nothing when the text is not JSON.
pub uninterp spec fn json_parse(text: Seq<char>) -> Option<JVal>;

/// Converts a parsed `serde_json::Value` one for one into the library's JSON model:
/// integers that fit `u64` and other integers that fit `i64` keep their value, other
/// numbers keep their `f64` bits, and objects keep their entries in order.
#[verifier::external_body]
fn value_to_json(v: &Value) -> JsonValue {
    match v {
        Value::Null => JsonValue::Null,
        Value::Bool(b) => JsonValue::Bool(*b),
        Value::Number(n) => JsonValue::Number(n.as_u64().map(JsonNumber::PosInt).or(n.as_i64().map(JsonNumber::NegInt))
            .unwrap_or(JsonNumber::FloatBits(n.as_f64().map(|f| f.to_bits()).unwrap_or(0)))),
        Value::String(t) => JsonValue::Str(t.clone()),
        Value::Array(a) => JsonValue::Array(a.iter().map(value_to_json).collect()),
        Value::Object(o) => JsonValue::Object(o.iter().map(|(k, x)| (k.clone(), value_to_json(x))).collect()),
    }
}

/// Calls `serde_json::from_str` to parse `text` as a JSON document (`serde_json::Value`),
/// converted by `value_to_json`. The result is named `json_parse`; it fails exactly when
/// the text is not JSON. A parsed document never holds a key twice in an object (a
/// repeated key keeps its last value), so it is `json_wf`.
#[verifier::external_body]
fn parse_json_text(text: &str) -> (r: Result<JsonValue, serde_json::Error>)
    ensures
        r is Err <==> json_parse(text@) is None,
        r is Ok ==> json_parse(text@) == Some(r->Ok_0.jv()),
        r is Ok ==> json_wf(r->Ok_0.jv()),
{
    match serde_json::from_str::<Value>(text) {
        Ok(v) => Ok(value_to_json(&v)),
        Err(e) => Err(e),
    }
}

/// The configuration held by the text of `opencode.json`, or the default configuration
/// when there is no file (`text` is `None`). Text that is not JSON is refused with the
/// parser's error.
pub fn parse_opencode_config(text: Option<&str>) -> (r: Result<JsonValue, serde_json::Error>)
    ensures
        text is None ==> r is Ok && r->Ok_0.jv() == default_config(),
        text is Some ==> (r is Err <==> json_parse(text.unwrap()@) is None),
        text is Some && r is Ok ==> json_parse(text.unwrap()@) == Some(r->Ok_0.jv()),
        r is Ok ==> json_wf(r->Ok_0.jv()),
{
    match text {
        None => Ok(default_opencode_config()),
        Some(t) => parse_json_text(t),
    }
}

/// The entries of the root object, or none.
pub open spec fn root_entries(c: JVal) -> Seq<(Seq<char>, JVal)> {
    match c {
        JVal::Object(o) => o,
        _ => Seq::empty(),
    }
}

/// `config[section] = {}` is possible: the section exists, or the root is an object or null.
pub open spec fn can_index(c: JVal, section: Seq<char>) -> bool {
    jget(c, section) is Some || c is Object || c is Null
}

/// The root entries once a missing section has been created as an empty object.
pub open spec fn with_section(c: JVal, section: Seq<char>) -> Seq<(Seq<char>, JVal)> {
    if jget(c, section) is Some {
        root_entries(c)
    } else {
        assoc_insert(root_entries(c), section, JVal::Object(Seq::empty()))
    }
}

/// The entries of a section, or none when it is missing or not an object.
pub open spec fn section_entries(c: JVal, section: Seq<char>) -> Seq<(Seq<char>, JVal)> {
    match jobj(jget(c, section)) {
        Some(o) => o,
        None => Seq::empty(),
    }
}

/// The configuration after `id` is set to `v` in `section`, the section being created
/// when missing; a section that is not an object is left as it is.
pub open spec fn section_set(c: JVal, section: Seq<char>, id: Seq<char>, v: JVal) -> JVal {
    let o = with_section(c, section);
    match lookup(o, section) {
        Some(JVal::Object(p)) => JVal::Object(assoc_insert(o, section, JVal::Object(assoc_insert(p, id, v)))),
        _ => JVal::Object(o),
    }
}

/// The configuration after `id` is removed from `section`, when that section is an object.
pub open spec fn section_remove(c: JVal, section: Seq<char>, id: Seq<char>) -> JVal {
    match c {
        JVal::Object(o) => match lookup(o, section) {
            Some(JVal::Object(p)) => JVal::Object(assoc_insert(o, section, JVal::Object(assoc_swap_remove(p, id)))),
            _ => c,
        },
        _ => c,
    }
}

/// The configuration after the `currentModel` of provider `pid` is set to `m`, the
/// provider map and the provider being created when missing and the provider being
/// replaced by an empty object first when it is not one.
pub open spec fn current_model_set(c: JVal, pid: Seq<char>, m: Seq<char>) -> JVal {
    let o = with_section(c, "provider"@);
    let p = section_entries(JVal::Object(o), "provider"@);
    let prov = match lookup(p, pid) {
        Some(JVal::Object(x)) => x,
        _ => Seq::empty(),
    };
    JVal::Object(
        assoc_insert(
            o,
            "provider"@,
            JVal::Object(assoc_insert(p, pid, JVal::Object(assoc_insert(prov, "currentModel"@, JVal::Str(m))))),
        ),
    )
}

/// The configuration holds an object under "provider" once it is created when missing.
pub open spec fn provider_map_ok(c: JVal) -> bool {
    jobj(lookup(with_section(c, "provider"@), "provider"@)) is Some
}

/// Copies the entries of a section, or gives none.
fn section_copy(config: &JsonValue, section: &str) -> (r: Vec<(String, JsonValue)>)
    ensures
        ov(r@) == section_entries(config.jv(), section@),
{
    match config.get(section) {
        Some(v) => match v.as_object() {
            Some(o) => obj_duplicate(o),
            None => {
                let e: Vec<(String, JsonValue)> = Vec::new();
                assert(ov(e@) =~= Seq::<(Seq<char>, JVal)>::empty());
                e
            },
        },
        None => {
            let e: Vec<(String, JsonValue)> = Vec::new();
            assert(ov(e@) =~= Seq::<(Seq<char>, JVal)>::empty());
            e
        },
    }
}

/// The root entries with `section` created as an empty object when missing.
fn root_with_section(config: &JsonValue, section: &str) -> (r: Vec<(String, JsonValue)>)
    requires
        can_index(config.jv(), section@),
    ensures
        ov(r@) == with_section(config.jv(), section@),
{
    let mut entries: Vec<(String, JsonValue)> = match config.as_object() {
        Some(o) => obj_duplicate(o),
        None => Vec::new(),
    };
    assert(ov(entries@) =~= root_entries(config.jv()));
    if config.get(section).is_none() {
        let empty: Vec<(String, JsonValue)> = Vec::new();
        proof {
            lemma_object_jv(empty);
            assert(ov(empty@) =~= Seq::<(Seq<char>, JVal)>::empty());
        }
        obj_insert(&mut entries, section.to_string(), JsonValue::Object(empty));
    }
    entries
}

/// Sets `id` to `value` in `section`.
fn set_in_section(config: &mut JsonValue, section: &str, id: &str, value: JsonValue)
    requires
        can_index(old(config).jv(), section@),
    ensures
        final(config).jv() == section_set(old(config).jv(), section@, id@, value.jv()),
{
    let mut entries = root_with_section(config, section);
    let ghost o = ov(entries@);
    let updated: Option<Vec<(String, JsonValue)>> = match obj_get(&entries, section) {
        Some(v) => match v.as_object() {
            Some(p) => {
                let mut p2 = obj_duplicate(p);
                obj_insert(&mut p2, id.to_string(), value);
                Some(p2)
            },
            None => None,
        },
        None => None,
    };
    match updated {
        Some(p2) => {
            proof { lemma_object_jv(p2); }
            obj_insert(&mut entries, section.to_string(), JsonValue::Object(p2));
        },
        None => {},
    }
    proof { lemma_object_jv(entries); }
    *config = JsonValue::Object(entries);
}

/// Removes `id` from `section`.
fn remove_from_section(config: &mut JsonValue, section: &str, id: &str)
    ensures
        final(config).jv() == section_remove(old(config).jv(), section@, id@),
{
    let updated: Option<Vec<(String, JsonValue)>> = match config.as_object() {
        Some(o) => match obj_get(o, section) {
            Some(v) => match v.as_object() {
                Some(p) => {
                    let mut entries = obj_duplicate(o);
                    let mut p2 = obj_duplicate(p);
                    let _ = obj_remove(&mut p2, id);
                    proof { lemma_object_jv(p2); }
                    obj_insert(&mut entries, section.to_string(), JsonValue::Object(p2));
                    Some(entries)
                },
                None => None,
            },
            None => None,
        },
        None => None,
    };
    match updated {
        Some(entries) => {
            proof { lemma_object_jv(entries); }
            *config = JsonValue::Object(entries);
        },
        None => {},
    }
}

/// The providers of the configuration: the entries of its `provider` object, or none.
pub fn get_providers(config: &JsonValue) -> (r: Vec<(String, JsonValue)>)
    ensures
        ov(r@) == section_entries(config.jv(), "provider"@),
{
    section_copy(config, "provider")
}

/// Sets provider `id`, creating the provider map when missing.
pub fn set_provider(config: &mut JsonValue, id: &str, provider: JsonValue)
    requires
        can_index(old(config).jv(), "provider"@),
    ensures
        final(config).jv() == section_set(old(config).jv(), "provider"@, id@, provider.jv()),
{
    set_in_section(config, "provider", id, provider)
}

/// Removes provider `id` when the provider map is an object.
pub fn remove_provider(config: &mut JsonValue, id: &str)
    ensures
        final(config).jv() == section_remove(old(config).jv(), "provider"@, id@),
{
    remove_from_section(config, "provider", id)
}

/// The `currentModel` text of provider `provider_id`, if it has one.
pub fn get_current_model(config: &JsonValue, provider_id: &str) -> (r: Option<String>)
    ensures
        r is Some == jstr(jget(lookup(section_entries(config.jv(), "provider"@), provider_id@).unwrap_or(JVal::Null), "currentModel"@)) is Some,
        r is Some ==> r.unwrap()@ == jstr(jget(lookup(section_entries(config.jv(), "provider"@), provider_id@).unwrap_or(JVal::Null), "currentModel"@)).unwrap(),
{
    let providers = get_providers(config);
    match obj_get(&providers, provider_id) {
        Some(p) => match p.get("currentModel") {
            Some(v) => match v.as_str() {
                Some(s) => Some(s.clone()),
                None => None,
            },
            None => None,
        },
        None => None,
    }
}

/// Sets the `currentModel` of provider `provider_id` to `model_id`, creating the
/// provider map and the provider when missing. A provider map that is not an object is
/// refused and the configuration is left as it is.
pub fn set_current_model(config: &mut JsonValue, provider_id: &str, model_id: &str) -> (r: Result<(), AppError>)
    requires
        can_index(old(config).jv(), "provider"@),
    ensures
        provider_map_ok(old(config).jv()) ==> r is Ok && final(config).jv() == current_model_set(
            old(config).jv(),
            provider_id@,
            model_id@,
        ),
        !provider_map_ok(old(config).jv()) ==> r is Err && final(config).jv() == old(config).jv(),
        r is Err ==> (r->Err_0 matches AppError::Config(msg) && msg@ == "OpenCode provider map is not an object"@),
{
    let mut entries = root_with_section(config, "provider");
    let providers: Vec<(String, JsonValue)> = match obj_get(&entries, "provider") {
        Some(v) => match v.as_object() {
            Some(p) => obj_duplicate(p),
            None => {
                return Err(AppError::Config(String::from_str("OpenCode provider map is not an object")));
            },
        },
        None => {
            return Err(AppError::Config(String::from_str("OpenCode provider map is not an object")));
        },
    };
    proof { lemma_object_jv(entries); }
    let ghost o = ov(entries@);
    assert(ov(providers@) == section_entries(JVal::Object(o), "provider"@));
    let mut providers = providers;
    let mut prov: Vec<(String, JsonValue)> = match obj_get(&providers, provider_id) {
        Some(v) => match v.as_object() {
            Some(x) => obj_duplicate(x),
            None => Vec::new(),
        },
        None => Vec::new(),
    };
    assert(ov(prov@) =~= match lookup(ov(providers@), provider_id@) {
        Some(JVal::Object(x)) => x,
        _ => Seq::<(Seq<char>, JVal)>::empty(),
    });
    obj_insert(&mut prov, String::from_str("currentModel"), JsonValue::Str(model_id.to_string()));
    proof { lemma_object_jv(prov); }
    obj_insert(&mut providers, provider_id.to_string(), JsonValue::Object(prov));
    proof { lemma_object_jv(providers); }
    obj_insert(&mut entries, String::from_str("provider"), JsonValue::Object(providers));
    proof { lemma_object_jv(entries); }
    *config = JsonValue::Object(entries);
    Ok(())
}

/// The MCP servers of the configuration: the entries of its `mcp` object, or none.
pub fn get_mcp_servers(config: &JsonValue) -> (r: Vec<(String, JsonValue)>)
    ensures
        ov(r@) == section_entries(config.jv(), "mcp"@),
{
    section_copy(config, "mcp")
}

/// Sets MCP server `id`, creating the `mcp` map when missing.
pub fn set_mcp_server(config: &mut JsonValue, id: &str, server: JsonValue)
    requires
        can_index(old(config).jv(), "mcp"@),
    ensures
        final(config).jv() == section_set(old(config).jv(), "mcp"@, id@, server.jv()),
{
    set_in_section(config, "mcp", id, server)
}

/// Removes MCP server `id` when the `mcp` map is an object.
pub fn remove_mcp_server(config: &mut JsonValue, id: &str)
    ensures
        final(config).jv() == section_remove(old(config).jv(), "mcp"@, id@),
{
    remove_from_section(config, "mcp", id)
}

} // verus!
