//! Per-directory configuration: its shape, and the merge rules that layer
//! one configuration over another.
//!
//! A configuration file contributes an optional `argument` section (how to
//! run) and an optional `state` section (where to resolve next).  Merging
//! is right-biased per scalar field: a value set by the replacing side
//! wins, anything it leaves unset is kept.  Environment-variable lists
//! merge key-wise, a later entry for a key replacing the earlier target.

use vstd::prelude::*;
use vstd::string::StrSliceExecFns;
use vstd::string::StringExecFns;

use crate::errors::ConfigError;
use crate::errors::ConfigErrorKind;

verus! {

/// A secret key paired with the environment variable it should fill.
#[derive(Debug)]
pub struct ConfigVar {
    pub key: String,
    pub env_name: String,
}

pub ghost struct ConfigVarV {
    pub key: Seq<char>,
    pub env_name: Seq<char>,
}

impl View for ConfigVar {
    type V = ConfigVarV;

    open spec fn view(&self) -> ConfigVarV {
        ConfigVarV { key: self.key@, env_name: self.env_name@ }
    }
}

impl ConfigVar {
    pub fn dup(&self) -> (r: ConfigVar)
        ensures
            r@ == self@,
    {
        ConfigVar { key: self.key.clone(), env_name: self.env_name.clone() }
    }
}

/// The view of an optional owned string.
pub open spec fn opt_str_view(o: Option<String>) -> Option<Seq<char>> {
    match o {
        Some(s) => Some(s@),
        None => None,
    }
}

/// The views of a sequence of configuration variables.
pub open spec fn vars_views(v: Seq<ConfigVar>) -> Seq<ConfigVarV> {
    v.map_values(|x: ConfigVar| x@)
}

/// The view of an optional variable list.
pub open spec fn opt_vars_view(o: Option<Vec<ConfigVar>>) -> Option<Seq<ConfigVarV>> {
    match o {
        Some(v) => Some(vars_views(v@)),
        None => None,
    }
}

/// The scope a secret lives in, as far as one configuration sets it.
#[derive(Debug)]
pub struct ConfigScope {
    pub name: Option<String>,
    pub sub: Option<String>,
    pub service: Option<String>,
    pub require_hash: Option<bool>,
}

pub ghost struct ConfigScopeV {
    pub name: Option<Seq<char>>,
    pub sub: Option<Seq<char>>,
    pub service: Option<Seq<char>>,
    pub require_hash: Option<bool>,
}

impl View for ConfigScope {
    type V = ConfigScopeV;

    open spec fn view(&self) -> ConfigScopeV {
        ConfigScopeV {
            name: opt_str_view(self.name),
            sub: opt_str_view(self.sub),
            service: opt_str_view(self.service),
            require_hash: self.require_hash,
        }
    }
}

/// The `argument` section of one configuration.
#[derive(Debug)]
pub struct ArgumentConfig {
    pub scope: Option<ConfigScope>,
    pub executable: Option<String>,
    pub execution_path: Option<String>,
    pub envs: Option<Vec<ConfigVar>>,
}

pub ghost struct ArgumentConfigV {
    pub scope: Option<ConfigScopeV>,
    pub executable: Option<Seq<char>>,
    pub execution_path: Option<Seq<char>>,
    pub envs: Option<Seq<ConfigVarV>>,
}

pub open spec fn opt_scope_view(o: Option<ConfigScope>) -> Option<ConfigScopeV> {
    match o {
        Some(s) => Some(s@),
        None => None,
    }
}

impl View for ArgumentConfig {
    type V = ArgumentConfigV;

    open spec fn view(&self) -> ArgumentConfigV {
        ArgumentConfigV {
            scope: opt_scope_view(self.scope),
            executable: opt_str_view(self.executable),
            execution_path: opt_str_view(self.execution_path),
            envs: opt_vars_view(self.envs),
        }
    }
}

/// Where a `state` section redirects resolution to: an explicitly tagged
/// local directory or Git location.
#[derive(Debug)]
pub enum ConfigAddress {
    Local {
        path: String,
        state_path: Option<String>,
        state_root: Option<String>,
    },
    Git {
        url: String,
        local: Option<bool>,
        git_ref: String,
        target_path: Option<String>,
        state_path: Option<String>,
        state_root: Option<String>,
    },
}

pub ghost enum ConfigAddressV {
    Local {
        path: Seq<char>,
        state_path: Option<Seq<char>>,
        state_root: Option<Seq<char>>,
    },
    Git {
        url: Seq<char>,
        local: Option<bool>,
        git_ref: Seq<char>,
        target_path: Option<Seq<char>>,
        state_path: Option<Seq<char>>,
        state_root: Option<Seq<char>>,
    },
}

impl View for ConfigAddress {
    type V = ConfigAddressV;

    open spec fn view(&self) -> ConfigAddressV {
        match self {
            ConfigAddress::Local { path, state_path, state_root } => ConfigAddressV::Local {
                path: path@,
                state_path: opt_str_view(*state_path),
                state_root: opt_str_view(*state_root),
            },
            ConfigAddress::Git { url, local, git_ref, target_path, state_path, state_root } => {
                ConfigAddressV::Git {
                    url: url@,
                    local: *local,
                    git_ref: git_ref@,
                    target_path: opt_str_view(*target_path),
                    state_path: opt_str_view(*state_path),
                    state_root: opt_str_view(*state_root),
                }
            },
        }
    }
}

/// The `state` section of one configuration.
#[derive(Debug)]
pub struct StateConfig {
    pub address: Option<ConfigAddress>,
    pub state_path: Option<String>,
    pub state_root: Option<String>,
}

pub ghost struct StateConfigV {
    pub address: Option<ConfigAddressV>,
    pub state_path: Option<Seq<char>>,
    pub state_root: Option<Seq<char>>,
}

pub open spec fn opt_addr_view(o: Option<ConfigAddress>) -> Option<ConfigAddressV> {
    match o {
        Some(a) => Some(a@),
        None => None,
    }
}

impl View for StateConfig {
    type V = StateConfigV;

    open spec fn view(&self) -> StateConfigV {
        StateConfigV {
            address: opt_addr_view(self.address),
            state_path: opt_str_view(self.state_path),
            state_root: opt_str_view(self.state_root),
        }
    }
}

/// One directory's configuration.
#[derive(Debug)]
pub struct Config {
    pub argument: Option<ArgumentConfig>,
    pub state: Option<StateConfig>,
}

pub ghost struct ConfigV {
    pub argument: Option<ArgumentConfigV>,
    pub state: Option<StateConfigV>,
}

pub open spec fn opt_arg_view(o: Option<ArgumentConfig>) -> Option<ArgumentConfigV> {
    match o {
        Some(a) => Some(a@),
        None => None,
    }
}

pub open spec fn opt_state_view(o: Option<StateConfig>) -> Option<StateConfigV> {
    match o {
        Some(s) => Some(s@),
        None => None,
    }
}

impl View for Config {
    type V = ConfigV;

    open spec fn view(&self) -> ConfigV {
        ConfigV { argument: opt_arg_view(self.argument), state: opt_state_view(self.state) }
    }
}

impl Config {
    /// The configuration an absent file stands for: nothing set.
    pub fn empty() -> (r: Config)
        ensures
            r@ == (ConfigV { argument: None, state: None }),
    {
        Config { argument: None, state: None }
    }
}

/// Which file one directory's configuration is read from: the JSON file
/// wins when it exists, else the TOML file, and neither existing stands
/// for the empty configuration.
#[derive(Debug, Clone, Copy, PartialEq, Eq)]
pub enum ConfigFileChoice {
    Json,
    Toml,
    Absent,
}

/// Chooses the configuration file for a directory from which of the two
/// candidate files exist.
pub fn choose_config_file(json_exists: bool, toml_exists: bool) -> (r: ConfigFileChoice)
    ensures
        json_exists ==> r == ConfigFileChoice::Json,
        !json_exists && toml_exists ==> r == ConfigFileChoice::Toml,
        !json_exists && !toml_exists ==> r == ConfigFileChoice::Absent,
{
    if json_exists {
        ConfigFileChoice::Json
    } else if toml_exists {
        ConfigFileChoice::Toml
    } else {
        ConfigFileChoice::Absent
    }
}

/// One field of a parsed configuration tree.
#[derive(Debug)]
pub struct CfgField {
    pub name: String,
    pub value: CfgValue,
}

/// A parsed configuration file as a plain tree: the common shape of the
/// JSON and TOML documents the loader accepts.
#[derive(Debug)]
pub enum CfgValue {
    Null,
    Bool(bool),
    Num(i64),
    Str(String),
    Arr(Vec<CfgValue>),
    Obj(Vec<CfgField>),
}

pub ghost struct CfgFieldV {
    pub name: Seq<char>,
    pub value: CfgValueV,
}

pub ghost enum CfgValueV {
    Null,
    Bool(bool),
    Num(i64),
    Str(Seq<char>),
    Arr(Seq<CfgValueV>),
    Obj(Seq<CfgFieldV>),
}

pub open spec fn spec_cfg_view(v: CfgValue) -> CfgValueV
    decreases v,
{
    match v {
        CfgValue::Null => CfgValueV::Null,
        CfgValue::Bool(b) => CfgValueV::Bool(b),
        CfgValue::Num(n) => CfgValueV::Num(n),
        CfgValue::Str(s) => CfgValueV::Str(s@),
        CfgValue::Arr(items) => CfgValueV::Arr(spec_cfg_views(items@)),
        CfgValue::Obj(fields) => CfgValueV::Obj(spec_cfg_fields(fields@)),
    }
}

pub open spec fn spec_cfg_views(items: Seq<CfgValue>) -> Seq<CfgValueV>
    decreases items,
{
    if items.len() == 0 {
        Seq::empty()
    } else {
        seq![spec_cfg_view(items[0])] + spec_cfg_views(items.drop_first())
    }
}

pub open spec fn spec_cfg_fields(fields: Seq<CfgField>) -> Seq<CfgFieldV>
    decreases fields,
{
    if fields.len() == 0 {
        Seq::empty()
    } else {
        seq![CfgFieldV { name: fields[0].name@, value: spec_cfg_view(fields[0].value) }]
            + spec_cfg_fields(fields.drop_first())
    }
}

pub proof fn lemma_cfg_fields_index(fields: Seq<CfgField>)
    ensures
        spec_cfg_fields(fields).len() == fields.len(),
        forall|i: int|
            0 <= i < fields.len() ==> #[trigger] spec_cfg_fields(fields)[i] == (CfgFieldV {
                name: fields[i].name@,
                value: spec_cfg_view(fields[i].value),
            }),
    decreases fields,
{
    if fields.len() > 0 {
        lemma_cfg_fields_index(fields.drop_first());
        assert forall|i: int|
            0 <= i < fields.len() implies #[trigger] spec_cfg_fields(fields)[i] == (CfgFieldV {
            name: fields[i].name@,
            value: spec_cfg_view(fields[i].value),
        }) by {
            if i > 0 {
                assert(spec_cfg_fields(fields)[i] == spec_cfg_fields(fields.drop_first())[i - 1]);
                assert(fields.drop_first()[i - 1] == fields[i]);
            }
        }
    }
}

pub proof fn lemma_cfg_views_index(items: Seq<CfgValue>)
    ensures
        spec_cfg_views(items).len() == items.len(),
        forall|i: int|
            0 <= i < items.len() ==> #[trigger] spec_cfg_views(items)[i] == spec_cfg_view(
                items[i],
            ),
    decreases items,
{
    if items.len() > 0 {
        lemma_cfg_views_index(items.drop_first());
        assert forall|i: int|
            0 <= i < items.len() implies #[trigger] spec_cfg_views(items)[i] == spec_cfg_view(
            items[i],
        ) by {
            if i > 0 {
                assert(spec_cfg_views(items)[i] == spec_cfg_views(items.drop_first())[i - 1]);
                assert(items.drop_first()[i - 1] == items[i]);
            }
        }
    }
}

impl View for CfgValue {
    type V = CfgValueV;

    open spec fn view(&self) -> CfgValueV {
        spec_cfg_view(*self)
    }
}

/// The first field with this name, if any.
pub open spec fn spec_obj_get(fields: Seq<CfgFieldV>, name: Seq<char>) -> Option<CfgValueV>
    decreases fields.len(),
{
    if fields.len() == 0 {
        None
    } else if fields[0].name == name {
        Some(fields[0].value)
    } else {
        spec_obj_get(fields.drop_first(), name)
    }
}

fn obj_get<'a>(fields: &'a Vec<CfgField>, name: &str) -> (r: Option<&'a CfgValue>)
    ensures
        match spec_obj_get((CfgValue::Obj(*fields))@->Obj_0, name@) {
            Some(v) => r matches Some(rv) && rv@ == v,
            None => r is None,
        },
{
    let ghost fvs = (CfgValue::Obj(*fields))@->Obj_0;
    let mut i: usize = 0;
    proof {
        lemma_cfg_fields_index(fields@);
        assert(fvs.skip(0) =~= fvs);
    }
    while i < fields.len()
        invariant
            i <= fields@.len(),
            fvs == (CfgValue::Obj(*fields))@->Obj_0,
            fvs.len() == fields@.len(),
            spec_obj_get(fvs, name@) == spec_obj_get(fvs.skip(i as int), name@),
        decreases fields@.len() - i,
    {
        proof {
            lemma_cfg_fields_index(fields@);
            assert(fvs.skip(i as int).drop_first() =~= fvs.skip(i as int + 1));
            assert(fvs.skip(i as int)[0] == fvs[i as int]);
        }
        if crate::strutil::str_eq(fields[i].name.as_str(), name) {
            return Some(&fields[i].value);
        }
        i = i + 1;
    }
    None
}

/// An optional string field: absent is fine, any non-string value is a
/// shape error (the outer `None`).
pub open spec fn spec_opt_str_field(fields: Seq<CfgFieldV>, name: Seq<char>) -> Option<
    Option<Seq<char>>,
> {
    match spec_obj_get(fields, name) {
        None => Some(None),
        Some(CfgValueV::Str(s)) => Some(Some(s)),
        Some(_) => None,
    }
}

/// An optional boolean field.
pub open spec fn spec_opt_bool_field(fields: Seq<CfgFieldV>, name: Seq<char>) -> Option<
    Option<bool>,
> {
    match spec_obj_get(fields, name) {
        None => Some(None),
        Some(CfgValueV::Bool(b)) => Some(Some(b)),
        Some(_) => None,
    }
}

fn opt_str_field(fields: &Vec<CfgField>, name: &str) -> (r: Result<Option<String>, ConfigError>)
    ensures
        match spec_opt_str_field((CfgValue::Obj(*fields))@->Obj_0, name@) {
            Some(o) => r matches Ok(ro) && opt_str_view(ro) == o,
            None => r matches Err(e) && e.kind matches ConfigErrorKind::BadValue(_),
        },
{
    match obj_get(fields, name) {
        None => Ok(None),
        Some(CfgValue::Str(s)) => Ok(Some(s.clone())),
        Some(_) => Err(bad_value(name)),
    }
}

fn opt_bool_field(fields: &Vec<CfgField>, name: &str) -> (r: Result<Option<bool>, ConfigError>)
    ensures
        match spec_opt_bool_field((CfgValue::Obj(*fields))@->Obj_0, name@) {
            Some(o) => r matches Ok(ro) && ro == o,
            None => r matches Err(e) && e.kind matches ConfigErrorKind::BadValue(_),
        },
{
    match obj_get(fields, name) {
        None => Ok(None),
        Some(CfgValue::Bool(b)) => Ok(Some(*b)),
        Some(_) => Err(bad_value(name)),
    }
}

/// A shape error naming the offending field.
fn bad_value(name: &str) -> (r: ConfigError)
    ensures
        r.kind matches ConfigErrorKind::BadValue(n) && n@ == name@,
{
    ConfigError {
        msg: String::from_str("Configuration field has the wrong shape."),
        kind: ConfigErrorKind::BadValue(name.to_owned()),
    }
}

/// One entry of an `envs` list: an object with `key` and `env_name`
/// strings.
pub open spec fn spec_parse_var(v: CfgValueV) -> Option<ConfigVarV> {
    match v {
        CfgValueV::Obj(fields) => match (
            spec_obj_get(fields, "key"@),
            spec_obj_get(fields, "env_name"@),
        ) {
            (Some(CfgValueV::Str(k)), Some(CfgValueV::Str(e))) => Some(
                ConfigVarV { key: k, env_name: e },
            ),
            _ => None,
        },
        _ => None,
    }
}

fn parse_var(v: &CfgValue) -> (r: Result<ConfigVar, ConfigError>)
    ensures
        match spec_parse_var(v@) {
            Some(cv) => r matches Ok(rv) && rv@ == cv,
            None => r matches Err(e) && e.kind matches ConfigErrorKind::BadValue(_),
        },
{
    match v {
        CfgValue::Obj(fields) => {
            let k = match obj_get(fields, "key") {
                Some(CfgValue::Str(s)) => s.clone(),
                _ => {
                    return Err(bad_value("envs"));
                },
            };
            let e = match obj_get(fields, "env_name") {
                Some(CfgValue::Str(s)) => s.clone(),
                _ => {
                    return Err(bad_value("envs"));
                },
            };
            Ok(ConfigVar { key: k, env_name: e })
        },
        _ => Err(bad_value("envs")),
    }
}

/// A whole `envs` list; any malformed entry is a shape error.
pub open spec fn spec_parse_vars(items: Seq<CfgValueV>) -> Option<Seq<ConfigVarV>>
    decreases items.len(),
{
    if items.len() == 0 {
        Some(Seq::empty())
    } else {
        match (spec_parse_vars(items.drop_last()), spec_parse_var(items.last())) {
            (Some(rest), Some(v)) => Some(rest.push(v)),
            _ => None,
        }
    }
}

fn parse_vars(items: &Vec<CfgValue>) -> (r: Result<Vec<ConfigVar>, ConfigError>)
    ensures
        match spec_parse_vars((CfgValue::Arr(*items))@->Arr_0) {
            Some(vs) => r matches Ok(rv) && vars_views(rv@) == vs,
            None => r matches Err(e) && e.kind matches ConfigErrorKind::BadValue(_),
        },
{
    let ghost ivs = (CfgValue::Arr(*items))@->Arr_0;
    let mut out: Vec<ConfigVar> = Vec::new();
    let mut i: usize = 0;
    proof {
        lemma_cfg_views_index(items@);
        assert(ivs.take(0) =~= Seq::<CfgValueV>::empty());
        assert(vars_views(out@) =~= Seq::<ConfigVarV>::empty());
    }
    while i < items.len()
        invariant
            i <= items@.len(),
            ivs == (CfgValue::Arr(*items))@->Arr_0,
            ivs.len() == items@.len(),
            spec_parse_vars(ivs.take(i as int)) matches Some(vs) && vs == vars_views(out@),
        decreases items@.len() - i,
    {
        proof {
            lemma_cfg_views_index(items@);
            assert(ivs.take(i as int + 1).drop_last() =~= ivs.take(i as int));
            assert(ivs.take(i as int + 1).last() == ivs[i as int]);
            assert(ivs[i as int] == items@[i as int]@);
        }
        match parse_var(&items[i]) {
            Ok(v) => {
                out.push(v);
                proof {
                    assert(vars_views(out@) =~= vars_views(out@.drop_last()).push(
                        out@.last()@,
                    ));
                }
            },
            Err(e) => {
                proof {
                    lemma_parse_vars_bad(ivs, i as int);
                }
                return Err(e);
            },
        }
        i = i + 1;
    }
    proof {
        assert(ivs.take(items@.len() as int) =~= ivs);
    }
    Ok(out)
}

proof fn lemma_parse_vars_bad(items: Seq<CfgValueV>, i: int)
    requires
        0 <= i < items.len(),
        spec_parse_var(items[i]) is None,
    ensures
        spec_parse_vars(items.take(items.len() as int)) is None,
        spec_parse_vars(items) is None,
    decreases items.len(),
{
    assert(items.take(items.len() as int) =~= items);
    if items.len() > 0 {
        if i == items.len() - 1 {
            assert(items.last() == items[i]);
        } else {
            assert(items.drop_last()[i] == items[i]);
            lemma_parse_vars_bad(items.drop_last(), i);
        }
    }
}

/// The `scope` section: four optional fields.
pub open spec fn spec_parse_scope(v: CfgValueV) -> Option<ConfigScopeV> {
    match v {
        CfgValueV::Obj(fields) => match (
            spec_opt_str_field(fields, "name"@),
            spec_opt_str_field(fields, "sub"@),
            spec_opt_str_field(fields, "service"@),
            spec_opt_bool_field(fields, "require_hash"@),
        ) {
            (Some(name), Some(sub), Some(service), Some(require_hash)) => Some(
                ConfigScopeV { name, sub, service, require_hash },
            ),
            _ => None,
        },
        _ => None,
    }
}

fn parse_scope(v: &CfgValue) -> (r: Result<ConfigScope, ConfigError>)
    ensures
        match spec_parse_scope(v@) {
            Some(s) => r matches Ok(rs) && rs@ == s,
            None => r matches Err(e) && e.kind matches ConfigErrorKind::BadValue(_),
        },
{
    match v {
        CfgValue::Obj(fields) => {
            let name = opt_str_field(fields, "name")?;
            let sub = opt_str_field(fields, "sub")?;
            let service = opt_str_field(fields, "service")?;
            let require_hash = opt_bool_field(fields, "require_hash")?;
            Ok(ConfigScope { name, sub, service, require_hash })
        },
        _ => Err(bad_value("scope")),
    }
}

/// The `argument` section.
pub open spec fn spec_parse_argument(v: CfgValueV) -> Option<ArgumentConfigV> {
    match v {
        CfgValueV::Obj(fields) => {
            let scope = match spec_obj_get(fields, "scope"@) {
                None => Some(None),
                Some(sv) => match spec_parse_scope(sv) {
                    Some(s) => Some(Some(s)),
                    None => None,
                },
            };
            let envs = match spec_obj_get(fields, "envs"@) {
                None => Some(None),
                Some(CfgValueV::Arr(items)) => match spec_parse_vars(items) {
                    Some(vs) => Some(Some(vs)),
                    None => None,
                },
                Some(_) => None,
            };
            match (
                scope,
                spec_opt_str_field(fields, "executable"@),
                spec_opt_str_field(fields, "execution_path"@),
                envs,
            ) {
                (Some(scope), Some(executable), Some(execution_path), Some(envs)) => Some(
                    ArgumentConfigV { scope, executable, execution_path, envs },
                ),
                _ => None,
            }
        },
        _ => None,
    }
}

fn parse_argument(v: &CfgValue) -> (r: Result<ArgumentConfig, ConfigError>)
    ensures
        match spec_parse_argument(v@) {
            Some(a) => r matches Ok(ra) && ra@ == a,
            None => r matches Err(e) && e.kind matches ConfigErrorKind::BadValue(_),
        },
{
    match v {
        CfgValue::Obj(fields) => {
            let scope = match obj_get(fields, "scope") {
                None => None,
                Some(sv) => Some(parse_scope(sv)?),
            };
            let executable = opt_str_field(fields, "executable")?;
            let execution_path = opt_str_field(fields, "execution_path")?;
            let envs = match obj_get(fields, "envs") {
                None => None,
                Some(CfgValue::Arr(items)) => Some(parse_vars(items)?),
                Some(_) => {
                    return Err(bad_value("envs"));
                },
            };
            Ok(ArgumentConfig { scope, executable, execution_path, envs })
        },
        _ => Err(bad_value("argument")),
    }
}

/// The `address` value: an explicitly distinguished shape.  An object
/// with a `path` field is a local address and may not carry `url`; an
/// object with `url` is a Git address and must carry `git_ref`; anything
/// else is rejected rather than guessed at.
pub open spec fn spec_parse_address(v: CfgValueV) -> Option<ConfigAddressV> {
    match v {
        CfgValueV::Obj(fields) => {
            if spec_obj_get(fields, "path"@) is Some && spec_obj_get(fields, "url"@) is None {
                match (
                    spec_opt_str_field(fields, "path"@),
                    spec_opt_str_field(fields, "state_path"@),
                    spec_opt_str_field(fields, "state_root"@),
                ) {
                    (Some(Some(path)), Some(state_path), Some(state_root)) => Some(
                        ConfigAddressV::Local { path, state_path, state_root },
                    ),
                    _ => None,
                }
            } else if spec_obj_get(fields, "url"@) is Some && spec_obj_get(fields, "path"@)
                is None {
                match (
                    spec_opt_str_field(fields, "url"@),
                    spec_opt_bool_field(fields, "local"@),
                    spec_opt_str_field(fields, "git_ref"@),
                    spec_opt_str_field(fields, "target_path"@),
                    spec_opt_str_field(fields, "state_path"@),
                    spec_opt_str_field(fields, "state_root"@),
                ) {
                    (
                        Some(Some(url)),
                        Some(local),
                        Some(Some(git_ref)),
                        Some(target_path),
                        Some(state_path),
                        Some(state_root),
                    ) => Some(
                        ConfigAddressV::Git {
                            url,
                            local,
                            git_ref,
                            target_path,
                            state_path,
                            state_root,
                        },
                    ),
                    _ => None,
                }
            } else {
                None
            }
        },
        _ => None,
    }
}

fn parse_address(v: &CfgValue) -> (r: Result<ConfigAddress, ConfigError>)
    ensures
        match spec_parse_address(v@) {
            Some(a) => r matches Ok(ra) && ra@ == a,
            None => r matches Err(e) && e.kind matches ConfigErrorKind::BadValue(_),
        },
{
    match v {
        CfgValue::Obj(fields) => {
            let has_path = match obj_get(fields, "path") {
                Some(_) => true,
                None => false,
            };
            let has_url = match obj_get(fields, "url") {
                Some(_) => true,
                None => false,
            };
            if has_path && !has_url {
                let path = match opt_str_field(fields, "path")? {
                    Some(p) => p,
                    None => {
                        return Err(bad_value("path"));
                    },
                };
                let state_path = opt_str_field(fields, "state_path")?;
                let state_root = opt_str_field(fields, "state_root")?;
                Ok(ConfigAddress::Local { path, state_path, state_root })
            } else if has_url && !has_path {
                let url = match opt_str_field(fields, "url")? {
                    Some(u) => u,
                    None => {
                        return Err(bad_value("url"));
                    },
                };
                let local = opt_bool_field(fields, "local")?;
                let git_ref = match opt_str_field(fields, "git_ref")? {
                    Some(g) => g,
                    None => {
                        return Err(bad_value("git_ref"));
                    },
                };
                let target_path = opt_str_field(fields, "target_path")?;
                let state_path = opt_str_field(fields, "state_path")?;
                let state_root = opt_str_field(fields, "state_root")?;
                Ok(
                    ConfigAddress::Git {
                        url,
                        local,
                        git_ref,
                        target_path,
                        state_path,
                        state_root,
                    },
                )
            } else {
                Err(bad_value("address"))
            }
        },
        _ => Err(bad_value("address")),
    }
}

/// The `state` section.
pub open spec fn spec_parse_state(v: CfgValueV) -> Option<StateConfigV> {
    match v {
        CfgValueV::Obj(fields) => {
            let address = match spec_obj_get(fields, "address"@) {
                None => Some(None),
                Some(av) => match spec_parse_address(av) {
                    Some(a) => Some(Some(a)),
                    None => None,
                },
            };
            match (
                address,
                spec_opt_str_field(fields, "state_path"@),
                spec_opt_str_field(fields, "state_root"@),
            ) {
                (Some(address), Some(state_path), Some(state_root)) => Some(
                    StateConfigV { address, state_path, state_root },
                ),
                _ => None,
            }
        },
        _ => None,
    }
}

fn parse_state(v: &CfgValue) -> (r: Result<StateConfig, ConfigError>)
    ensures
        match spec_parse_state(v@) {
            Some(s) => r matches Ok(rs) && rs@ == s,
            None => r matches Err(e) && e.kind matches ConfigErrorKind::BadValue(_),
        },
{
    match v {
        CfgValue::Obj(fields) => {
            let address = match obj_get(fields, "address") {
                None => None,
                Some(av) => Some(parse_address(av)?),
            };
            let state_path = opt_str_field(fields, "state_path")?;
            let state_root = opt_str_field(fields, "state_root")?;
            Ok(StateConfig { address, state_path, state_root })
        },
        _ => Err(bad_value("state")),
    }
}

/// A whole configuration document: an object with optional `argument`
/// and `state` sections; unknown fields are ignored.
pub open spec fn spec_parse_config(v: CfgValueV) -> Option<ConfigV> {
    match v {
        CfgValueV::Obj(fields) => {
            let argument = match spec_obj_get(fields, "argument"@) {
                None => Some(None),
                Some(av) => match spec_parse_argument(av) {
                    Some(a) => Some(Some(a)),
                    None => None,
                },
            };
            let state = match spec_obj_get(fields, "state"@) {
                None => Some(None),
                Some(sv) => match spec_parse_state(sv) {
                    Some(s) => Some(Some(s)),
                    None => None,
                },
            };
            match (argument, state) {
                (Some(argument), Some(state)) => Some(ConfigV { argument, state }),
                _ => None,
            }
        },
        _ => None,
    }
}

/// Extracts a configuration from a parsed document tree, validating the
/// shape of every recognized field; a document that is not an object or
/// whose recognized fields have the wrong shape is a shape error.
pub fn parse_config_value(v: &CfgValue) -> (r: Result<Config, ConfigError>)
    ensures
        match spec_parse_config(v@) {
            Some(c) => r matches Ok(rc) && rc@ == c,
            None => r matches Err(e) && e.kind matches ConfigErrorKind::BadValue(_),
        },
{
    match v {
        CfgValue::Obj(fields) => {
            let argument = match obj_get(fields, "argument") {
                None => None,
                Some(av) => Some(parse_argument(av)?),
            };
            let state = match obj_get(fields, "state") {
                None => None,
                Some(sv) => Some(parse_state(sv)?),
            };
            Ok(Config { argument, state })
        },
        _ => Err(bad_value("config")),
    }
}

/// Interprets what the loader found for one directory: an absent
/// configuration file is the empty configuration and never an error,
/// while a present file's parsed document is validated field by field.
/// The document argument is ignored when the choice is `Absent`.
pub fn interpret_config_file(choice: ConfigFileChoice, doc: &CfgValue) -> (r: Result<
    Config,
    ConfigError,
>)
    ensures
        choice == ConfigFileChoice::Absent ==> (r matches Ok(c) && c@ == (ConfigV {
            argument: None,
            state: None,
        })),
        choice != ConfigFileChoice::Absent ==> match spec_parse_config(doc@) {
            Some(c) => r matches Ok(rc) && rc@ == c,
            None => r matches Err(e) && e.kind matches ConfigErrorKind::BadValue(_),
        },
{
    match choice {
        ConfigFileChoice::Absent => Ok(Config::empty()),
        _ => parse_config_value(doc),
    }
}

/// Right-biased choice between optional values.
pub open spec fn spec_overwrite<T>(original: Option<T>, replacing: Option<T>) -> Option<T> {
    match replacing {
        Some(r) => Some(r),
        None => original,
    }
}

/// Merge of optional values by a merge function when both are present.
pub open spec fn spec_merge_opt<T>(
    original: Option<T>,
    replacing: Option<T>,
    f: spec_fn(T, T) -> T,
) -> Option<T> {
    match original {
        Some(a) => match replacing {
            Some(b) => Some(f(a, b)),
            None => Some(a),
        },
        None => replacing,
    }
}

/// The replacing value when it is set, else the original.
pub fn overwrite_option<T>(original: Option<T>, replacing: Option<T>) -> (r: Option<T>)
    ensures
        r == spec_overwrite(original, replacing),
{
    match replacing {
        Some(replacing) => Some(replacing),
        None => original,
    }
}

/// Merges two optional values with `merge_fn` when both are present; one
/// alone is kept as it is.
pub fn merge_option<T, F: FnOnce(T, T) -> T>(
    original: Option<T>,
    replacing: Option<T>,
    merge_fn: F,
) -> (r: Option<T>)
    requires
        original is Some && replacing is Some ==> call_requires(
            merge_fn,
            (original->0, replacing->0),
        ),
    ensures
        original is None ==> r == replacing,
        original is Some && replacing is None ==> r == original,
        original is Some && replacing is Some ==> r is Some && call_ensures(
            merge_fn,
            (original->0, replacing->0),
            r->0,
        ),
{
    match original {
        Some(original) => match replacing {
            Some(replacing) => Some(merge_fn(original, replacing)),
            None => Some(original),
        },
        None => replacing,
    }
}

/// Field-wise right-biased merge of two scopes.
pub open spec fn spec_overwrite_scope(a: ConfigScopeV, b: ConfigScopeV) -> ConfigScopeV {
    ConfigScopeV {
        name: spec_overwrite(a.name, b.name),
        sub: spec_overwrite(a.sub, b.sub),
        service: spec_overwrite(a.service, b.service),
        require_hash: spec_overwrite(a.require_hash, b.require_hash),
    }
}

/// Merges two scopes: every field the replacing one sets wins.
pub fn overwrite_scope(original: ConfigScope, replacing: ConfigScope) -> (r: ConfigScope)
    ensures
        r@ == spec_overwrite_scope(original@, replacing@),
{
    ConfigScope {
        name: overwrite_option(original.name, replacing.name),
        sub: overwrite_option(original.sub, replacing.sub),
        service: overwrite_option(original.service, replacing.service),
        require_hash: overwrite_option(original.require_hash, replacing.require_hash),
    }
}

/// The position of the first entry with this key, or -1.
pub open spec fn spec_find_key(vs: Seq<ConfigVarV>, key: Seq<char>) -> int
    decreases vs.len(),
{
    if vs.len() == 0 {
        -1
    } else if vs[0].key == key {
        0
    } else {
        let r = spec_find_key(vs.drop_first(), key);
        if r == -1 {
            -1
        } else {
            r + 1
        }
    }
}

pub proof fn lemma_find_key_range(vs: Seq<ConfigVarV>, key: Seq<char>)
    ensures
        -1 <= spec_find_key(vs, key) < vs.len(),
        spec_find_key(vs, key) >= 0 ==> vs[spec_find_key(vs, key)].key == key,
    decreases vs.len(),
{
    if vs.len() > 0 && vs[0].key != key {
        lemma_find_key_range(vs.drop_first(), key);
    }
}

/// Adds one variable: an entry with the same key is replaced in place,
/// otherwise the variable is appended.
pub open spec fn spec_upsert(acc: Seq<ConfigVarV>, v: ConfigVarV) -> Seq<ConfigVarV> {
    let i = spec_find_key(acc, v.key);
    if i >= 0 {
        acc.update(i, v)
    } else {
        acc.push(v)
    }
}

pub open spec fn spec_upsert_all(acc: Seq<ConfigVarV>, vs: Seq<ConfigVarV>) -> Seq<ConfigVarV>
    decreases vs.len(),
{
    if vs.len() == 0 {
        acc
    } else {
        spec_upsert(spec_upsert_all(acc, vs.drop_last()), vs.last())
    }
}

/// Key-wise merge of two variable lists: entries of `overwrite_vars` win
/// over entries of `root_vars` with the same key, first occurrences keep
/// their position, and the result holds one entry per key.
pub open spec fn spec_merge_vars(root: Seq<ConfigVarV>, over: Seq<ConfigVarV>) -> Seq<ConfigVarV> {
    spec_upsert_all(spec_upsert_all(Seq::empty(), root), over)
}

/// The environment target a merged list assigns to a key.
pub open spec fn spec_var_target(vs: Seq<ConfigVarV>, key: Seq<char>) -> Option<Seq<char>> {
    let i = spec_find_key(vs, key);
    if i >= 0 {
        Some(vs[i].env_name)
    } else {
        None
    }
}

/// The last target a source list mentions for a key, scanning in order.
pub open spec fn spec_last_target(vs: Seq<ConfigVarV>, key: Seq<char>) -> Option<Seq<char>>
    decreases vs.len(),
{
    if vs.len() == 0 {
        None
    } else if vs.last().key == key {
        Some(vs.last().env_name)
    } else {
        spec_last_target(vs.drop_last(), key)
    }
}

/// Whether every key occurs at most once.
pub open spec fn spec_keys_unique(vs: Seq<ConfigVarV>) -> bool {
    forall|i: int, j: int| 0 <= i < j < vs.len() ==> (#[trigger] vs[i]).key != (#[trigger] vs[j]).key
}

proof fn lemma_find_key_is_first(vs: Seq<ConfigVarV>, key: Seq<char>)
    ensures
        spec_find_key(vs, key) >= 0 ==> forall|j: int|
            0 <= j < spec_find_key(vs, key) ==> (#[trigger] vs[j]).key != key,
        spec_find_key(vs, key) == -1 ==> forall|j: int|
            0 <= j < vs.len() ==> (#[trigger] vs[j]).key != key,
    decreases vs.len(),
{
    if vs.len() > 0 && vs[0].key != key {
        lemma_find_key_is_first(vs.drop_first(), key);
        lemma_find_key_range(vs.drop_first(), key);
        let r = spec_find_key(vs.drop_first(), key);
        if r >= 0 {
            assert forall|j: int| 0 <= j < r + 1 implies (#[trigger] vs[j]).key != key by {
                if j > 0 {
                    assert(vs.drop_first()[j - 1].key != key);
                }
            }
        } else {
            assert forall|j: int| 0 <= j < vs.len() implies (#[trigger] vs[j]).key != key by {
                if j > 0 {
                    assert(vs.drop_first()[j - 1].key != key);
                }
            }
        }
    }
}

proof fn lemma_upsert_target(acc: Seq<ConfigVarV>, v: ConfigVarV, key: Seq<char>)
    ensures
        spec_var_target(spec_upsert(acc, v), key) == (if key == v.key {
            Some(v.env_name)
        } else {
            spec_var_target(acc, key)
        }),
{
    lemma_find_key_range(acc, v.key);
    lemma_find_key_range(acc, key);
    lemma_find_key_is_first(acc, v.key);
    lemma_find_key_is_first(acc, key);
    let i = spec_find_key(acc, v.key);
    let r = spec_upsert(acc, v);
    if i >= 0 {
        if key == v.key {
            lemma_find_key_first(r, key, i);
        } else {
            let j = spec_find_key(acc, key);
            if j >= 0 {
                assert(r[j].key == key);
                assert forall|k: int| 0 <= k < j implies (#[trigger] r[k]).key != key by {
                    assert(acc[k].key != key);
                }
                lemma_find_key_first(r, key, j);
            } else {
                assert forall|k: int| 0 <= k < r.len() implies (#[trigger] r[k]).key != key by {
                    assert(acc[k].key != key);
                }
                lemma_find_key_absent(r, key);
            }
        }
    } else {
        if key == v.key {
            assert(r[acc.len() as int].key == key);
            assert forall|k: int| 0 <= k < acc.len() implies (#[trigger] r[k]).key != key by {
                assert(acc[k].key != key);
            }
            lemma_find_key_first(r, key, acc.len() as int);
        } else {
            let j = spec_find_key(acc, key);
            if j >= 0 {
                assert(r[j].key == key);
                assert forall|k: int| 0 <= k < j implies (#[trigger] r[k]).key != key by {
                    assert(acc[k].key != key);
                }
                lemma_find_key_first(r, key, j);
            } else {
                assert forall|k: int| 0 <= k < r.len() implies (#[trigger] r[k]).key != key by {
                    if k < acc.len() {
                        assert(acc[k].key != key);
                    }
                }
                lemma_find_key_absent(r, key);
            }
        }
    }
}

proof fn lemma_upsert_all_target(acc: Seq<ConfigVarV>, vs: Seq<ConfigVarV>, key: Seq<char>)
    ensures
        spec_var_target(spec_upsert_all(acc, vs), key) == (match spec_last_target(vs, key) {
            Some(t) => Some(t),
            None => spec_var_target(acc, key),
        }),
    decreases vs.len(),
{
    if vs.len() > 0 {
        lemma_upsert_all_target(acc, vs.drop_last(), key);
        lemma_upsert_target(spec_upsert_all(acc, vs.drop_last()), vs.last(), key);
    }
}

/// Key-wise precedence (law): after a merge, every key maps to the last
/// target the overwriting list mentions for it, and only keys neither
/// list mentions stay unmapped — a later entry for a key always replaces
/// an earlier target.
pub proof fn lemma_merge_vars_last_wins(
    root: Seq<ConfigVarV>,
    over: Seq<ConfigVarV>,
    key: Seq<char>,
)
    ensures
        spec_var_target(spec_merge_vars(root, over), key) == (match spec_last_target(over, key) {
            Some(t) => Some(t),
            None => spec_last_target(root, key),
        }),
{
    lemma_upsert_all_target(Seq::empty(), root, key);
    lemma_upsert_all_target(spec_upsert_all(Seq::empty(), root), over, key);
    lemma_find_key_range(Seq::empty(), key);
}

proof fn lemma_upsert_unique(acc: Seq<ConfigVarV>, v: ConfigVarV)
    requires
        spec_keys_unique(acc),
    ensures
        spec_keys_unique(spec_upsert(acc, v)),
{
    lemma_find_key_range(acc, v.key);
    lemma_find_key_is_first(acc, v.key);
    let i = spec_find_key(acc, v.key);
    let r = spec_upsert(acc, v);
    if i >= 0 {
        assert forall|a: int, b: int|
            0 <= a < b < r.len() implies (#[trigger] r[a]).key != (#[trigger] r[b]).key by {
            assert(acc[a].key != acc[b].key);
            assert(r[a].key == acc[a].key);
            assert(r[b].key == acc[b].key);
        }
    } else {
        assert forall|a: int, b: int|
            0 <= a < b < r.len() implies (#[trigger] r[a]).key != (#[trigger] r[b]).key by {
            if b < acc.len() {
                assert(acc[a].key != acc[b].key);
            } else {
                assert(acc[a].key != v.key);
            }
        }
    }
}

proof fn lemma_upsert_all_unique(acc: Seq<ConfigVarV>, vs: Seq<ConfigVarV>)
    requires
        spec_keys_unique(acc),
    ensures
        spec_keys_unique(spec_upsert_all(acc, vs)),
    decreases vs.len(),
{
    if vs.len() > 0 {
        lemma_upsert_all_unique(acc, vs.drop_last());
        lemma_upsert_unique(spec_upsert_all(acc, vs.drop_last()), vs.last());
    }
}

/// One entry per key (law): whatever the sources hold, the merged list
/// never carries two entries with the same key.
pub proof fn lemma_merge_vars_unique(root: Seq<ConfigVarV>, over: Seq<ConfigVarV>)
    ensures
        spec_keys_unique(spec_merge_vars(root, over)),
{
    assert(spec_keys_unique(Seq::<ConfigVarV>::empty()));
    lemma_upsert_all_unique(Seq::empty(), root);
    lemma_upsert_all_unique(spec_upsert_all(Seq::empty(), root), over);
}

/// Adds one variable to an owned list, replacing an entry with its key.
fn upsert_var(acc: &mut Vec<ConfigVar>, v: ConfigVar)
    ensures
        vars_views(final(acc)@) == spec_upsert(vars_views(old(acc)@), v@),
{
    let mut i: usize = 0;
    while i < acc.len()
        invariant
            i <= acc@.len(),
            acc@ == old(acc)@,
            forall|j: int| 0 <= j < i ==> vars_views(acc@)[j].key != v@.key,
        decreases acc@.len() - i,
    {
        if crate::strutil::str_eq(acc[i].key.as_str(), v.key.as_str()) {
            proof {
                lemma_find_key_first(vars_views(acc@), v@.key, i as int);
            }
            let ghost pre = vars_views(acc@);
            acc[i] = v;
            proof {
                assert(vars_views(acc@) =~= pre.update(i as int, v@));
            }
            return ;
        }
        i = i + 1;
    }
    proof {
        lemma_find_key_absent(vars_views(acc@), v@.key);
    }
    let ghost pre = vars_views(acc@);
    acc.push(v);
    proof {
        assert(vars_views(acc@) =~= pre.push(v@));
    }
}

proof fn lemma_find_key_first(vs: Seq<ConfigVarV>, key: Seq<char>, i: int)
    requires
        0 <= i < vs.len(),
        vs[i].key == key,
        forall|j: int| 0 <= j < i ==> vs[j].key != key,
    ensures
        spec_find_key(vs, key) == i,
    decreases vs.len(),
{
    if i > 0 {
        assert forall|j: int| 0 <= j < i - 1 implies vs.drop_first()[j].key != key by {
            assert(vs[j + 1].key != key);
        }
        lemma_find_key_first(vs.drop_first(), key, i - 1);
    }
}

proof fn lemma_find_key_absent(vs: Seq<ConfigVarV>, key: Seq<char>)
    requires
        forall|j: int| 0 <= j < vs.len() ==> vs[j].key != key,
    ensures
        spec_find_key(vs, key) == -1,
    decreases vs.len(),
{
    if vs.len() > 0 {
        assert forall|j: int| 0 <= j < vs.drop_first().len() implies vs.drop_first()[j].key
            != key by {
            assert(vs[j + 1].key != key);
        }
        lemma_find_key_absent(vs.drop_first(), key);
    }
}

/// Merges two variable lists key-wise: a key set by both takes the target
/// of `overwrite_vars`, and each key keeps its first position.
pub fn merge_vars(root_vars: Vec<ConfigVar>, overwrite_vars: Vec<ConfigVar>) -> (r: Vec<
    ConfigVar,
>)
    ensures
        vars_views(r@) == spec_merge_vars(vars_views(root_vars@), vars_views(overwrite_vars@)),
{
    let mut acc: Vec<ConfigVar> = Vec::new();
    proof {
        assert(vars_views(acc@) =~= Seq::<ConfigVarV>::empty());
    }
    let acc = upsert_all(acc, &root_vars);
    let acc = upsert_all(acc, &overwrite_vars);
    acc
}

/// Duplicates a variable list, keeping its view.
pub fn dup_vars(vs: &Vec<ConfigVar>) -> (r: Vec<ConfigVar>)
    ensures
        vars_views(r@) == vars_views(vs@),
{
    let mut r: Vec<ConfigVar> = Vec::new();
    let mut i: usize = 0;
    while i < vs.len()
        invariant
            i <= vs@.len(),
            r@.len() == i,
            forall|j: int| 0 <= j < i ==> vars_views(r@)[j] == vars_views(vs@)[j],
        decreases vs@.len() - i,
    {
        r.push(vs[i].dup());
        i = i + 1;
    }
    proof {
        assert(vars_views(r@) =~= vars_views(vs@));
    }
    r
}

fn upsert_all(acc: Vec<ConfigVar>, vs: &Vec<ConfigVar>) -> (r: Vec<ConfigVar>)
    ensures
        vars_views(r@) == spec_upsert_all(vars_views(acc@), vars_views(vs@)),
{
    let ghost acc0 = vars_views(acc@);
    let mut acc = acc;
    let mut i: usize = 0;
    proof {
        assert(vars_views(vs@).take(0) =~= Seq::<ConfigVarV>::empty());
    }
    while i < vs.len()
        invariant
            i <= vs@.len(),
            vars_views(acc@) == spec_upsert_all(acc0, vars_views(vs@).take(i as int)),
        decreases vs@.len() - i,
    {
        proof {
            assert(vars_views(vs@).take(i as int + 1).drop_last() =~= vars_views(vs@).take(
                i as int,
            ));
            assert(vars_views(vs@).take(i as int + 1).last() == vs@[i as int]@);
        }
        upsert_var(&mut acc, vs[i].dup());
        i = i + 1;
    }
    proof {
        assert(vars_views(vs@).take(vs@.len() as int) =~= vars_views(vs@));
    }
    acc
}

/// Duplicates an optional string, keeping its view.
pub fn opt_str_dup(o: &Option<String>) -> (r: Option<String>)
    ensures
        opt_str_view(r) == opt_str_view(*o),
{
    match o {
        Some(s) => Some(s.clone()),
        None => None,
    }
}

impl ConfigScope {
    pub fn dup(&self) -> (r: ConfigScope)
        ensures
            r@ == self@,
    {
        ConfigScope {
            name: opt_str_dup(&self.name),
            sub: opt_str_dup(&self.sub),
            service: opt_str_dup(&self.service),
            require_hash: self.require_hash,
        }
    }
}

impl ArgumentConfig {
    pub fn dup(&self) -> (r: ArgumentConfig)
        ensures
            r@ == self@,
    {
        ArgumentConfig {
            scope: match &self.scope {
                Some(s) => Some(s.dup()),
                None => None,
            },
            executable: opt_str_dup(&self.executable),
            execution_path: opt_str_dup(&self.execution_path),
            envs: match &self.envs {
                Some(v) => Some(dup_vars(v)),
                None => None,
            },
        }
    }
}

impl ConfigAddress {
    pub fn dup(&self) -> (r: ConfigAddress)
        ensures
            r@ == self@,
    {
        match self {
            ConfigAddress::Local { path, state_path, state_root } => ConfigAddress::Local {
                path: path.clone(),
                state_path: opt_str_dup(state_path),
                state_root: opt_str_dup(state_root),
            },
            ConfigAddress::Git { url, local, git_ref, target_path, state_path, state_root } => {
                ConfigAddress::Git {
                    url: url.clone(),
                    local: *local,
                    git_ref: git_ref.clone(),
                    target_path: opt_str_dup(target_path),
                    state_path: opt_str_dup(state_path),
                    state_root: opt_str_dup(state_root),
                }
            },
        }
    }
}

impl StateConfig {
    pub fn dup(&self) -> (r: StateConfig)
        ensures
            r@ == self@,
    {
        StateConfig {
            address: match &self.address {
                Some(a) => Some(a.dup()),
                None => None,
            },
            state_path: opt_str_dup(&self.state_path),
            state_root: opt_str_dup(&self.state_root),
        }
    }
}

impl Config {
    pub fn dup(&self) -> (r: Config)
        ensures
            r@ == self@,
    {
        Config {
            argument: match &self.argument {
                Some(a) => Some(a.dup()),
                None => None,
            },
            state: match &self.state {
                Some(s) => Some(s.dup()),
                None => None,
            },
        }
    }
}

/// Field-wise merge of two `argument` sections: scalar fields are
/// overwritten when the replacing side sets them, scopes merge field-wise
/// and variable lists merge key-wise.
pub open spec fn spec_overwrite_arguments(a: ArgumentConfigV, b: ArgumentConfigV) -> ArgumentConfigV {
    ArgumentConfigV {
        scope: spec_merge_opt(
            a.scope,
            b.scope,
            |x: ConfigScopeV, y: ConfigScopeV| spec_overwrite_scope(x, y),
        ),
        executable: spec_overwrite(a.executable, b.executable),
        execution_path: spec_overwrite(a.execution_path, b.execution_path),
        envs: spec_merge_opt(
            a.envs,
            b.envs,
            |x: Seq<ConfigVarV>, y: Seq<ConfigVarV>| spec_merge_vars(x, y),
        ),
    }
}

/// Merges two `argument` sections, the replacing one winning field-wise.
pub fn overwrite_arguments(root_config: ArgumentConfig, overwrite_config: ArgumentConfig) -> (r:
    ArgumentConfig)
    ensures
        r@ == spec_overwrite_arguments(root_config@, overwrite_config@),
{
    let scope_merge = |x: ConfigScope, y: ConfigScope| -> (m: ConfigScope)
        ensures
            m@ == spec_overwrite_scope(x@, y@),
        { overwrite_scope(x, y) };
    let vars_merge = |x: Vec<ConfigVar>, y: Vec<ConfigVar>| -> (m: Vec<ConfigVar>)
        ensures
            vars_views(m@) == spec_merge_vars(vars_views(x@), vars_views(y@)),
        { merge_vars(x, y) };
    let scope = merge_option(root_config.scope, overwrite_config.scope, scope_merge);
    let execution_path = overwrite_option(
        root_config.execution_path,
        overwrite_config.execution_path,
    );
    let executable = overwrite_option(root_config.executable, overwrite_config.executable);
    let envs = merge_option(root_config.envs, overwrite_config.envs, vars_merge);
    ArgumentConfig { scope, executable, execution_path, envs }
}

/// Merge of two `state` sections: each field the replacing one sets wins.
pub open spec fn spec_overwrite_state(a: StateConfigV, b: StateConfigV) -> StateConfigV {
    StateConfigV {
        address: spec_overwrite(a.address, b.address),
        state_path: spec_overwrite(a.state_path, b.state_path),
        state_root: spec_overwrite(a.state_root, b.state_root),
    }
}

/// Merges two `state` sections, the replacing one winning field-wise.
pub fn overwrite_state_config(base: StateConfig, replacing: StateConfig) -> (r: StateConfig)
    ensures
        r@ == spec_overwrite_state(base@, replacing@),
{
    StateConfig {
        address: overwrite_option(base.address, replacing.address),
        state_path: overwrite_option(base.state_path, replacing.state_path),
        state_root: overwrite_option(base.state_root, replacing.state_root),
    }
}

/// Merge of two whole configurations, section by section.
pub open spec fn spec_overwrite_config(a: ConfigV, b: ConfigV) -> ConfigV {
    ConfigV {
        argument: spec_merge_opt(
            a.argument,
            b.argument,
            |x: ArgumentConfigV, y: ArgumentConfigV| spec_overwrite_arguments(x, y),
        ),
        state: spec_merge_opt(
            a.state,
            b.state,
            |x: StateConfigV, y: StateConfigV| spec_overwrite_state(x, y),
        ),
    }
}

/// Merges two configurations, the replacing one winning per field.
pub fn overwrite_config(root_config: Config, replacing_config: Config) -> (r: Config)
    ensures
        r@ == spec_overwrite_config(root_config@, replacing_config@),
{
    let arg_merge = |x: ArgumentConfig, y: ArgumentConfig| -> (m: ArgumentConfig)
        ensures
            m@ == spec_overwrite_arguments(x@, y@),
        { overwrite_arguments(x, y) };
    let state_merge = |x: StateConfig, y: StateConfig| -> (m: StateConfig)
        ensures
            m@ == spec_overwrite_state(x@, y@),
        { overwrite_state_config(x, y) };
    let argument = merge_option(root_config.argument, replacing_config.argument, arg_merge);
    let state = merge_option(root_config.state, replacing_config.state, state_merge);
    Config { argument, state }
}

/// Merge of two optional `argument` sections.
pub fn overwrite_arg_config(
    root_config: Option<ArgumentConfig>,
    overwrite_config: Option<ArgumentConfig>,
) -> (r: Option<ArgumentConfig>)
    ensures
        opt_arg_view(r) == spec_merge_opt(
            opt_arg_view(root_config),
            opt_arg_view(overwrite_config),
            |x: ArgumentConfigV, y: ArgumentConfigV| spec_overwrite_arguments(x, y),
        ),
{
    let arg_merge = |x: ArgumentConfig, y: ArgumentConfig| -> (m: ArgumentConfig)
        ensures
            m@ == spec_overwrite_arguments(x@, y@),
        { overwrite_arguments(x, y) };
    merge_option(root_config, overwrite_config, arg_merge)
}

/// The directories a traversal from `start_path` visits below it, one per
/// segment of the normalized `final_path`, the deepest last.  The
/// traversal is a simple descent: `..` segments step back up.
pub fn get_component_paths(start_path: &crate::paths::AbsPath, final_path: &crate::paths::RelPath)
    -> (r: Vec<crate::paths::AbsPath>)
    ensures
        r@.len() == final_path@.len(),
        forall|i: int|
            0 <= i < final_path@.len() ==> (#[trigger] r@[i])@ == crate::paths::spec_fold_abs(
                start_path@,
                final_path@.take(i + 1),
            ),
{
    start_path.component_paths(final_path)
}

/// The views of a sequence of configurations.
pub open spec fn configs_views(s: Seq<Config>) -> Seq<ConfigV> {
    s.map_values(|c: Config| c@)
}

/// A root configuration with the chain of deeper configurations merged
/// over it, the deepest one last and winning.
pub open spec fn spec_merge_chain(root: ConfigV, rest: Seq<ConfigV>) -> ConfigV
    decreases rest.len(),
{
    if rest.len() == 0 {
        root
    } else {
        spec_overwrite_config(spec_merge_chain(root, rest.drop_last()), rest.last())
    }
}

/// Merges a chain of configurations over a root, deepest last and
/// winning.
pub fn merge_config_chain(root: Config, rest: Vec<Config>) -> (r: Config)
    ensures
        r@ == spec_merge_chain(root@, configs_views(rest@)),
{
    let ghost root0 = root@;
    let mut acc = root;
    let mut i: usize = 0;
    proof {
        assert(configs_views(rest@).take(0) =~= Seq::<ConfigV>::empty());
    }
    while i < rest.len()
        invariant
            i <= rest@.len(),
            acc@ == spec_merge_chain(root0, configs_views(rest@).take(i as int)),
        decreases rest@.len() - i,
    {
        proof {
            assert(configs_views(rest@).take(i as int + 1).drop_last() =~= configs_views(
                rest@,
            ).take(i as int));
            assert(configs_views(rest@).take(i as int + 1).last() == rest@[i as int]@);
        }
        acc = overwrite_config(acc, rest[i].dup());
        i = i + 1;
    }
    proof {
        assert(configs_views(rest@).take(rest@.len() as int) =~= configs_views(rest@));
    }
    acc
}

} // verus!
