//! The resolver: turns matched raw arguments plus environment facts (home
//! directory, runtime directory) into a fully resolved configuration, field
//! by field, first match wins.

use vstd::prelude::*;

use crate::args::{
    argv_tail, empty_raw, flag_of, parse_args, parse_args_spec, parse_flags_from, Error, RawArgs,
    RawView,
};
use crate::text::{command_spec, command_string};

verus! {

/// The mathematical model of a resolved configuration.
pub struct CliView {
    pub user: Seq<char>,
    pub command: Seq<char>,
    pub config: Seq<char>,
    pub cache_dir: Seq<char>,
}

/// The resolved configuration: the acting profile name, the external
/// command as one space-joined string (empty when none was given), the AWS
/// config file path, and the credential cache directory.
#[derive(Debug)]
pub struct CLI {
    pub user: String,
    pub command: String,
    pub config: String,
    pub cache_dir: String,
}

impl View for CLI {
    type V = CliView;

    open spec fn view(&self) -> CliView {
        CliView {
            user: self.user@,
            command: self.command@,
            config: self.config@,
            cache_dir: self.cache_dir@,
        }
    }
}

/// A relative path appended to a base directory: a `/` separates the two
/// unless the base already ends with one; an empty base adds nothing.
pub open spec fn path_join(base: Seq<char>, rel: Seq<char>) -> Seq<char> {
    if base.len() == 0 {
        rel
    } else if base.last() == '/' {
        base + rel
    } else {
        base + "/"@ + rel
    }
}

/// The config path chain: the explicit `-c` value if given, else
/// `.aws/config` under the home directory, else unresolvable.
pub open spec fn resolve_config_spec(explicit: Option<Seq<char>>, home: Option<Seq<char>>) -> Result<
    Seq<char>,
    Error,
> {
    match explicit {
        Some(p) => Ok(p),
        None => match home {
            Some(h) => Ok(path_join(h, ".aws/config"@)),
            None => Err(Error::UnresolvedConfigPath),
        },
    }
}

/// The cache directory chain: the explicit `--cache-dir` value if given,
/// else `.awsudo/` under the runtime directory, else `.awsudo/` under the
/// home directory, else unresolvable.
pub open spec fn resolve_cache_dir_spec(
    explicit: Option<Seq<char>>,
    runtime: Option<Seq<char>>,
    home: Option<Seq<char>>,
) -> Result<Seq<char>, Error> {
    match explicit {
        Some(d) => Ok(d),
        None => match runtime {
            Some(r) => Ok(path_join(r, ".awsudo/"@)),
            None => match home {
                Some(h) => Ok(path_join(h, ".awsudo/"@)),
                None => Err(Error::UnresolvedCacheDir),
            },
        },
    }
}

/// The full resolution of a matched argument set under the given
/// environment facts.
pub open spec fn resolve_raw_spec(
    raw: RawView,
    home: Option<Seq<char>>,
    runtime: Option<Seq<char>>,
) -> Result<CliView, Error> {
    match resolve_config_spec(raw.config, home) {
        Err(e) => Err(e),
        Ok(config) => match resolve_cache_dir_spec(raw.cache_dir, runtime, home) {
            Err(e) => Err(e),
            Ok(cache_dir) => Ok(
                CliView {
                    user: raw.user->0,
                    command: command_spec(raw.command),
                    config,
                    cache_dir,
                },
            ),
        },
    }
}

/// What an invocation resolves to: the argument vector (program name
/// first) is parsed, and the matched set is resolved under the given
/// environment facts.
pub open spec fn resolve_spec(
    argv: Seq<Seq<char>>,
    home: Option<Seq<char>>,
    runtime: Option<Seq<char>>,
) -> Result<CliView, Error> {
    match parse_args_spec(argv_tail(argv)) {
        Err(e) => Err(e),
        Ok(raw) => resolve_raw_spec(raw, home, runtime),
    }
}

/// Appends a relative path to a base directory, exactly as `path_join`
/// describes.
fn path_join_exec(base: &String, rel: &str) -> (r: String)
    ensures
        r@ == path_join(base@, rel@),
{
    let n = base.as_str().unicode_len();
    let mut r = base.clone();
    if n == 0 {
        r.append(rel);
        proof {
            assert(r@ =~= rel@);
        }
    } else if base.as_str().get_char(n - 1) == '/' {
        r.append(rel);
    } else {
        r.append("/");
        r.append(rel);
    }
    r
}

/// Resolves matched raw arguments under the given environment facts,
/// exactly as `resolve_raw_spec` describes.
pub fn resolve_raw(raw: RawArgs, home: &Option<String>, runtime: &Option<String>) -> (r: Result<
    CLI,
    Error,
>)
    requires
        raw@.user is Some,
    ensures
        (match r {
            Ok(c) => resolve_raw_spec(raw@, home.deep_view(), runtime.deep_view()) == Ok::<
                CliView,
                Error,
            >(c@),
            Err(e) => resolve_raw_spec(raw@, home.deep_view(), runtime.deep_view()) == Err::<
                CliView,
                Error,
            >(e),
        }),
{
    let command = command_string(&raw.command);
    let config = match raw.config {
        Some(p) => p,
        None => match home {
            Some(h) => path_join_exec(h, ".aws/config"),
            None => { return Err(Error::UnresolvedConfigPath); },
        },
    };
    let cache_dir = match raw.cache_dir {
        Some(d) => d,
        None => match runtime {
            Some(r) => path_join_exec(r, ".awsudo/"),
            None => match home {
                Some(h) => path_join_exec(h, ".awsudo/"),
                None => { return Err(Error::UnresolvedCacheDir); },
            },
        },
    };
    let user = match raw.user {
        Some(u) => u,
        None => { return Err(Error::MissingUser); },
    };
    Ok(CLI { user, command, config, cache_dir })
}

/// Parses an argument vector and resolves it under the given environment
/// facts, exactly as `resolve_spec` describes. Deterministic: the result
/// is a function of the three arguments alone.
pub fn resolve(args: &Vec<String>, home: &Option<String>, runtime: &Option<String>) -> (r: Result<
    CLI,
    Error,
>)
    ensures
        (match r {
            Ok(c) => resolve_spec(args.deep_view(), home.deep_view(), runtime.deep_view()) == Ok::<
                CliView,
                Error,
            >(c@),
            Err(e) => resolve_spec(args.deep_view(), home.deep_view(), runtime.deep_view())
                == Err::<CliView, Error>(e),
        }),
{
    match parse_args(args) {
        Err(e) => Err(e),
        Ok(raw) => resolve_raw(raw, home, runtime),
    }
}

/// Relies on dirs::home_dir: the user's home directory as the platform
/// reports it, if any. The value depends on the process environment, so
/// nothing is promised of it; a path that is not valid UTF-8 counts as
/// absent.
#[verifier::external_body]
fn lookup_home_dir() -> (r: Option<String>) {
    match dirs::home_dir() {
        Some(p) => match p.to_str() {
            Some(s) => Some(s.to_string()),
            None => None,
        },
        None => None,
    }
}

/// Relies on dirs::runtime_dir: the user's ephemeral runtime directory as
/// the platform reports it, if any. The value depends on the process
/// environment, so nothing is promised of it; a path that is not valid
/// UTF-8 counts as absent.
#[verifier::external_body]
fn lookup_runtime_dir() -> (r: Option<String>) {
    match dirs::runtime_dir() {
        Some(p) => match p.to_str() {
            Some(s) => Some(s.to_string()),
            None => None,
        },
        None => None,
    }
}

/// Whether `r` is what the argument vector resolves to under the
/// environment facts `home` and `runtime`.
pub open spec fn resolves_under(
    argv: Seq<Seq<char>>,
    home: Option<Seq<char>>,
    runtime: Option<Seq<char>>,
    r: Result<CLI, Error>,
) -> bool {
    match r {
        Ok(c) => resolve_spec(argv, home, runtime) == Ok::<CliView, Error>(c@),
        Err(e) => resolve_spec(argv, home, runtime) == Err::<CliView, Error>(e),
    }
}

/// Parses an argument vector (program name first) and resolves it under
/// the environment's home and runtime directories.
///
/// The environment facts are looked up afresh, so only what holds of every
/// outcome of those lookups is promised: usage errors, the user, the
/// command, and every explicitly given path come out exactly as
/// `resolve_spec` says for any environment, and the whole result is the
/// resolution under some pair of environment facts. `resolve` gives the
/// exact contract once the facts are fixed.
pub fn parse(args: &Vec<String>) -> (r: Result<CLI, Error>)
    ensures
        (parse_args_spec(argv_tail(args.deep_view())) matches Err(e) ==> r == Err::<CLI, Error>(
            e,
        )),
        (parse_args_spec(argv_tail(args.deep_view())) matches Ok(raw) ==> (r matches Ok(c) ==> {
            &&& c@.user == raw.user->0
            &&& c@.command == command_spec(raw.command)
            &&& (raw.config is Some ==> c@.config == raw.config->0)
            &&& (raw.cache_dir is Some ==> c@.cache_dir == raw.cache_dir->0)
        })),
        (parse_args_spec(argv_tail(args.deep_view())) matches Ok(raw) && raw.config is Some
            && raw.cache_dir is Some ==> r is Ok),
        exists|home: Option<Seq<char>>, runtime: Option<Seq<char>>|
            resolves_under(args.deep_view(), home, runtime, r),
{
    let home = lookup_home_dir();
    let runtime = lookup_runtime_dir();
    let r = resolve(args, &home, &runtime);
    proof {
        let ts = args.deep_view();
        let hdv = home.deep_view();
        let rdv = runtime.deep_view();
        assert(resolves_under(ts, hdv, rdv, r));
        if parse_args_spec(argv_tail(ts)) is Ok && r is Ok {
            let raw = parse_args_spec(argv_tail(ts))->Ok_0;
            let c = r->Ok_0;
            assert(resolve_spec(ts, hdv, rdv) == Ok::<CliView, Error>(c@));
            assert(resolve_raw_spec(raw, hdv, rdv) == Ok::<CliView, Error>(c@));
            assert(resolve_config_spec(raw.config, hdv) matches Ok(cfg) && c@.config == cfg);
            assert(resolve_cache_dir_spec(raw.cache_dir, rdv, hdv) matches Ok(cd) && c@.cache_dir
                == cd);
        }
    }
    r
}

/// Law: the resolved `user` is the matched `-u`/`--user` value verbatim —
/// resolution applies no transformation and no default to it.
pub proof fn lemma_user_verbatim(
    argv: Seq<Seq<char>>,
    home: Option<Seq<char>>,
    runtime: Option<Seq<char>>,
)
    requires
        resolve_spec(argv, home, runtime) is Ok,
    ensures
        parse_args_spec(argv_tail(argv)) is Ok,
        resolve_spec(argv, home, runtime)->Ok_0.user == parse_args_spec(
            argv_tail(argv),
        )->Ok_0.user->0,
{
}

/// Law: an invocation whose tail is `-u <name>` followed by anything that
/// is not a declared flag matches `user` to `<name>` exactly, and captures
/// that remainder as the external command.
pub proof fn lemma_user_flag_matched(name: Seq<char>, rest: Seq<Seq<char>>)
    requires
        rest.len() == 0 || flag_of(rest[0]) is None,
    ensures
        parse_args_spec(seq!["-u"@, name] + rest) matches Ok(raw) && raw.user == Some(name)
            && raw.command == if rest.len() == 0 { Seq::<Seq<char>>::empty() } else { rest },
{
    let ts = seq!["-u"@, name] + rest;
    assert(ts[0] == "-u"@);
    assert(ts[1] == name);
    assert(ts.skip(2) =~= rest);
    let acc2 = RawView { user: Some(name), ..empty_raw() };
    assert(parse_flags_from(ts, empty_raw()) == parse_flags_from(rest, acc2));
    if rest.len() == 0 {
        assert(parse_flags_from(rest, acc2) == Ok::<RawView, Error>(acc2));
    } else {
        assert(parse_flags_from(rest, acc2) == Ok::<RawView, Error>(
            RawView { command: rest, ..acc2 },
        ));
    }
}

/// Law: the first token that is no declared flag ends flag matching: it
/// and every later token, flag-like or not, are captured verbatim as the
/// external command.
pub proof fn lemma_command_captured_verbatim(ts: Seq<Seq<char>>, acc: RawView)
    requires
        ts.len() > 0,
        flag_of(ts[0]) is None,
    ensures
        parse_flags_from(ts, acc) == Ok::<RawView, Error>(RawView { command: ts, ..acc }),
{
}

/// Law: when `--cache-dir` is absent, the cache directory defaults to
/// `.awsudo/` under the runtime directory if one is available, else to
/// `.awsudo/` under the home directory.
pub proof fn lemma_cache_dir_default(
    argv: Seq<Seq<char>>,
    home: Option<Seq<char>>,
    runtime: Option<Seq<char>>,
)
    requires
        resolve_spec(argv, home, runtime) is Ok,
        parse_args_spec(argv_tail(argv))->Ok_0.cache_dir is None,
    ensures
        runtime is Some ==> resolve_spec(argv, home, runtime)->Ok_0.cache_dir == path_join(
            runtime->0,
            ".awsudo/"@,
        ),
        runtime is None ==> home is Some && resolve_spec(argv, home, runtime)->Ok_0.cache_dir
            == path_join(home->0, ".awsudo/"@),
{
}

/// Law: an explicit `--cache-dir` value is taken verbatim, bypassing all
/// defaulting, whatever the environment offers.
pub proof fn lemma_cache_dir_override(
    argv: Seq<Seq<char>>,
    home: Option<Seq<char>>,
    runtime: Option<Seq<char>>,
    d: Seq<char>,
)
    requires
        parse_args_spec(argv_tail(argv))->Ok_0.cache_dir == Some(d),
        resolve_spec(argv, home, runtime) is Ok,
    ensures
        resolve_spec(argv, home, runtime)->Ok_0.cache_dir == d,
{
}

/// Law: an explicit `-c`/`--config` value is taken verbatim, bypassing the
/// home-directory default, whatever the environment offers.
pub proof fn lemma_config_override(
    argv: Seq<Seq<char>>,
    home: Option<Seq<char>>,
    runtime: Option<Seq<char>>,
    p: Seq<char>,
)
    requires
        parse_args_spec(argv_tail(argv))->Ok_0.config == Some(p),
        resolve_spec(argv, home, runtime) is Ok,
    ensures
        resolve_spec(argv, home, runtime)->Ok_0.config == p,
{
}

/// Law: resolution is deterministic — equal argument vectors under equal
/// environment facts resolve to equal configurations, bit for bit; there
/// is no hidden state.
pub proof fn lemma_resolve_deterministic(
    argv1: Seq<Seq<char>>,
    home1: Option<Seq<char>>,
    runtime1: Option<Seq<char>>,
    argv2: Seq<Seq<char>>,
    home2: Option<Seq<char>>,
    runtime2: Option<Seq<char>>,
)
    requires
        argv1 == argv2,
        home1 == home2,
        runtime1 == runtime2,
    ensures
        resolve_spec(argv1, home1, runtime1) == resolve_spec(argv2, home2, runtime2),
{
}

} // verus!
