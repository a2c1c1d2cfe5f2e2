use crate::env_store::EnvStore;
use vstd::prelude::*;
use vstd::string::StringExecFns;

verus! {

/// Connection settings for the HC3 controller.  Every field is
/// optional: an unset variable simply leaves its field absent.  The
/// value is built once per request from an explicit environment
/// snapshot and carries no further state.
pub struct Hc3Config {
    pub host: Option<String>,
    pub user: Option<String>,
    pub password: Option<String>,
    pub protocol: Option<String>,
}

/// The mathematical shape of a configuration: four optional strings.
pub struct ConfigView {
    pub host: Option<Seq<char>>,
    pub user: Option<Seq<char>>,
    pub password: Option<Seq<char>>,
    pub protocol: Option<Seq<char>>,
}

impl View for Hc3Config {
    type V = ConfigView;

    closed spec fn view(&self) -> ConfigView {
        ConfigView {
            host: match self.host {
                Some(s) => Some(s@),
                None => None,
            },
            user: match self.user {
                Some(s) => Some(s@),
                None => None,
            },
            password: match self.password {
                Some(s) => Some(s@),
                None => None,
            },
            protocol: match self.protocol {
                Some(s) => Some(s@),
                None => None,
            },
        }
    }
}

/// The environment variable that carries each configuration field.
pub open spec fn host_var() -> Seq<char> {
    "HC3_HOST"@
}

pub open spec fn user_var() -> Seq<char> {
    "HC3_USER"@
}

pub open spec fn password_var() -> Seq<char> {
    "HC3_PASSWORD"@
}

pub open spec fn protocol_var() -> Seq<char> {
    "HC3_PROTOCOL"@
}

/// The value an environment binds to a name, absent where unbound.
pub open spec fn env_value(m: Map<Seq<char>, Seq<char>>, name: Seq<char>) -> Option<Seq<char>> {
    if m.dom().contains(name) {
        Some(m[name])
    } else {
        None
    }
}

/// The configuration that a given environment determines: each field is
/// the value of its variable, absent where the variable is unbound.
pub open spec fn config_of_env(m: Map<Seq<char>, Seq<char>>) -> ConfigView {
    ConfigView {
        host: env_value(m, host_var()),
        user: env_value(m, user_var()),
        password: env_value(m, password_var()),
        protocol: env_value(m, protocol_var()),
    }
}

fn get_cloned(env: &EnvStore, name: &str) -> (r: Option<String>)
    ensures
        match r {
            Some(v) => env@.dom().contains(name@) && v@ == env@[name@],
            None => !env@.dom().contains(name@),
        },
{
    let key = String::from_str(name);
    match env.get(&key) {
        Some(v) => Some(v.clone()),
        None => None,
    }
}

/// Reads the four `HC3_*` connection variables out of an environment
/// snapshot.  There is no error path: an unbound variable yields an
/// absent field and nothing is validated.
pub fn get_hc3_config(env: &EnvStore) -> (c: Hc3Config)
    ensures
        c@ == config_of_env(env@),
{
    let c = Hc3Config {
        host: get_cloned(env, "HC3_HOST"),
        user: get_cloned(env, "HC3_USER"),
        password: get_cloned(env, "HC3_PASSWORD"),
        protocol: get_cloned(env, "HC3_PROTOCOL"),
    };
    c
}

/// Law: with none of the four connection variables bound, the
/// configuration read from the environment has every field absent.
pub proof fn lemma_config_all_absent(m: Map<Seq<char>, Seq<char>>)
    requires
        !m.dom().contains(host_var()),
        !m.dom().contains(user_var()),
        !m.dom().contains(password_var()),
        !m.dom().contains(protocol_var()),
    ensures
        config_of_env(m).host is None,
        config_of_env(m).user is None,
        config_of_env(m).password is None,
        config_of_env(m).protocol is None,
{
}

/// Law: with the host variable bound and the other three unbound, the
/// configuration carries exactly that host and no other field.
pub proof fn lemma_config_host_only(m: Map<Seq<char>, Seq<char>>, h: Seq<char>)
    requires
        m.dom().contains(host_var()),
        m[host_var()] == h,
        !m.dom().contains(user_var()),
        !m.dom().contains(password_var()),
        !m.dom().contains(protocol_var()),
    ensures
        config_of_env(m).host == Some(h),
        config_of_env(m).user is None,
        config_of_env(m).password is None,
        config_of_env(m).protocol is None,
{
}

} // verus!
