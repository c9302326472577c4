//! The argument schema: the recognised flags, the usage and resolution
//! errors, and the two-phase parse of an argument vector.
//!
//! The first phase matches only the tool's own declared flags against a
//! prefix of the argument vector; the first token that is not a declared
//! flag starts the external command, and it and every later token are
//! captured verbatim, without interpretation.

use vstd::prelude::*;

verus! {

/// The tool's own value-taking flags.
#[derive(Clone, Copy, Debug, PartialEq, Eq, Structural)]
pub enum Flag {
    /// `-u` / `--user`: the AWS profile or role name (required).
    User,
    /// `-c` / `--config`: the AWS config file path.
    Config,
    /// `--cache-dir`: the credential cache directory.
    CacheDir,
}

/// Every way a parse or a resolution can fail. There are no recoverable
/// errors: each of these is fatal to the invocation.
#[derive(Clone, Copy, Debug, PartialEq, Eq, Structural)]
pub enum Error {
    /// Usage error: the required `-u` / `--user` flag is absent.
    MissingUser,
    /// Usage error: a value-taking flag stands last, with no value after it.
    MissingValue(Flag),
    /// Resolution error: no `-c` value was given and no home directory is
    /// available to default the config path from.
    UnresolvedConfigPath,
    /// Resolution error: no `--cache-dir` value was given and neither a
    /// runtime directory nor a home directory is available.
    UnresolvedCacheDir,
}

/// The mathematical model of a matched argument set: each flag's value, if
/// the flag occurred, and the captured external command tokens.
pub struct RawView {
    pub user: Option<Seq<char>>,
    pub config: Option<Seq<char>>,
    pub cache_dir: Option<Seq<char>>,
    pub command: Seq<Seq<char>>,
}

/// The matched raw arguments: the value of each flag that occurred, and the
/// external command tokens captured verbatim.
pub struct RawArgs {
    pub user: Option<String>,
    pub config: Option<String>,
    pub cache_dir: Option<String>,
    pub command: Vec<String>,
}

impl View for RawArgs {
    type V = RawView;

    open spec fn view(&self) -> RawView {
        RawView {
            user: self.user.deep_view(),
            config: self.config.deep_view(),
            cache_dir: self.cache_dir.deep_view(),
            command: self.command.deep_view(),
        }
    }
}

/// Which flag, if any, a token is.
pub open spec fn flag_of(t: Seq<char>) -> Option<Flag> {
    if t == "-u"@ || t == "--user"@ {
        Some(Flag::User)
    } else if t == "-c"@ || t == "--config"@ {
        Some(Flag::Config)
    } else if t == "--cache-dir"@ {
        Some(Flag::CacheDir)
    } else {
        None
    }
}

/// A matched set with no flags and no command.
pub open spec fn empty_raw() -> RawView {
    RawView { user: None, config: None, cache_dir: None, command: Seq::empty() }
}

/// The flag-matching phase, walking the argument tail left to right.
///
/// While the head token is a declared flag, the token after it is consumed
/// as that flag's value; a later occurrence of the same flag overwrites an
/// earlier one. A flag with no token after it is a usage error. The first
/// token that is no declared flag ends the phase: it and all later tokens,
/// flag-like or not, become the external command, verbatim.
pub open spec fn parse_flags_from(ts: Seq<Seq<char>>, acc: RawView) -> Result<RawView, Error>
    decreases ts.len(),
{
    if ts.len() == 0 {
        Ok(acc)
    } else {
        match flag_of(ts[0]) {
            Some(f) => if ts.len() < 2 {
                Err(Error::MissingValue(f))
            } else {
                let acc2 = match f {
                    Flag::User => RawView { user: Some(ts[1]), ..acc },
                    Flag::Config => RawView { config: Some(ts[1]), ..acc },
                    Flag::CacheDir => RawView { cache_dir: Some(ts[1]), ..acc },
                };
                parse_flags_from(ts.skip(2), acc2)
            },
            None => Ok(RawView { command: ts, ..acc }),
        }
    }
}

/// The whole parse of the argument tail (the argument vector without the
/// leading program name): flag matching, then the check that the required
/// `user` flag occurred.
pub open spec fn parse_args_spec(ts: Seq<Seq<char>>) -> Result<RawView, Error> {
    match parse_flags_from(ts, empty_raw()) {
        Ok(r) => if r.user is Some {
            Ok(r)
        } else {
            Err(Error::MissingUser)
        },
        Err(e) => Err(e),
    }
}

/// The argument vector without its leading program name.
pub open spec fn argv_tail(argv: Seq<Seq<char>>) -> Seq<Seq<char>> {
    if argv.len() == 0 {
        argv
    } else {
        argv.drop_first()
    }
}

/// Whether a concrete token equals a literal.
fn token_is(t: &String, lit: &str) -> (r: bool)
    ensures
        r == (t@ == lit@),
{
    let s = String::from_str(lit);
    *t == s
}

/// Which flag, if any, a concrete token is.
fn flag_token(t: &String) -> (r: Option<Flag>)
    ensures
        r == flag_of(t@),
{
    if token_is(t, "-u") || token_is(t, "--user") {
        Some(Flag::User)
    } else if token_is(t, "-c") || token_is(t, "--config") {
        Some(Flag::Config)
    } else if token_is(t, "--cache-dir") {
        Some(Flag::CacheDir)
    } else {
        None
    }
}

/// Parses a full argument vector (program name first) into the matched raw
/// arguments, exactly as `parse_args_spec` describes on the vector's tail.
pub fn parse_args(args: &Vec<String>) -> (r: Result<RawArgs, Error>)
    ensures
        (match r {
            Ok(raw) => parse_args_spec(argv_tail(args.deep_view())) == Ok::<RawView, Error>(raw@),
            Err(e) => parse_args_spec(argv_tail(args.deep_view())) == Err::<RawView, Error>(e),
        }),
        r matches Ok(raw) ==> raw@.user is Some,
{
    let ghost ts = argv_tail(args.deep_view());
    let n = args.len();
    let tlen: usize = if n == 0 { 0 } else { n - 1 };
    proof {
        assert(ts.len() == tlen);
        assert(forall|j: int| 0 <= j < tlen ==> ts[j] == args.deep_view()[j + 1]);
    }
    let mut user: Option<String> = None;
    let mut config: Option<String> = None;
    let mut cache_dir: Option<String> = None;
    let mut k: usize = 0;
    proof {
        assert(ts.skip(0) =~= ts);
    }
    while k < tlen
        invariant
            k <= tlen,
            tlen == ts.len(),
            n == args.len(),
            tlen == if n == 0 { 0int } else { n - 1 },
            ts == argv_tail(args.deep_view()),
            parse_flags_from(ts, empty_raw()) == parse_flags_from(
                ts.skip(k as int),
                RawView {
                    user: user.deep_view(),
                    config: config.deep_view(),
                    cache_dir: cache_dir.deep_view(),
                    command: Seq::empty(),
                },
            ),
        decreases tlen - k,
    {
        proof {
            assert(ts[k as int] == args.deep_view()[k + 1]);
        }
        match flag_token(&args[k + 1]) {
            Some(fl) => {
                if k + 1 >= tlen {
                    proof {
                        let rest = ts.skip(k as int);
                        assert(rest.len() == 1);
                        assert(rest[0] == ts[k as int]);
                    }
                    return Err(Error::MissingValue(fl));
                }
                let v = args[k + 2].clone();
                proof {
                    let rest = ts.skip(k as int);
                    assert(rest[0] == ts[k as int]);
                    assert(rest[1] == ts[k + 1]);
                    assert(ts[k + 1] == args.deep_view()[k + 2]);
                    assert(rest.skip(2) =~= ts.skip(k + 2));
                }
                match fl {
                    Flag::User => { user = Some(v); },
                    Flag::Config => { config = Some(v); },
                    Flag::CacheDir => { cache_dir = Some(v); },
                }
                k = k + 2;
            },
            None => {
                let mut cmd: Vec<String> = Vec::new();
                let mut j: usize = k + 1;
                while j < n
                    invariant
                        k + 1 <= j <= n,
                        k < tlen,
                        tlen == ts.len(),
                        n == args.len(),
                        tlen == n - 1,
                        ts == argv_tail(args.deep_view()),
                        cmd@.len() == j - 1 - k,
                        forall|i: int|
                            0 <= i < cmd@.len() ==> (#[trigger] cmd@[i])@ == ts[k + i],
                    decreases n - j,
                {
                    let v = args[j].clone();
                    proof {
                        assert(ts[j - 1] == args.deep_view()[j as int]);
                        assert(v@ == ts[j - 1]);
                    }
                    cmd.push(v);
                    j = j + 1;
                }
                proof {
                    assert(cmd.deep_view() =~= ts.skip(k as int));
                    let rest = ts.skip(k as int);
                    assert(rest[0] == ts[k as int]);
                }
                let raw = RawArgs { user, config, cache_dir, command: cmd };
                if raw.user.is_none() {
                    return Err(Error::MissingUser);
                }
                return Ok(raw);
            },
        }
    }
    proof {
        assert(ts.skip(tlen as int) =~= Seq::<Seq<char>>::empty());
    }
    let raw = RawArgs { user, config, cache_dir, command: Vec::new() };
    proof {
        assert(raw@.command =~= Seq::<Seq<char>>::empty());
    }
    if raw.user.is_none() {
        return Err(Error::MissingUser);
    }
    Ok(raw)
}

} // verus!
