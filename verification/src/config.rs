//! One file, one read: everything about the world Sandman runs in.
//!
//! Models, paths, channels, watcher — not policy. The text is parsed into
//! [`Config`] where the file is read; here every string of it is expanded
//! (`$NAME`, `${NAME}`, `$$`) and every slug it names is checked, so resolving
//! a slug later never fails.
use vstd::prelude::*;

use crate::roles::RoleName;
use crate::strings::{chars_of, owned, push_chars, push_str, str_eq, string_of, vec_eq};

verus! {

// --- Expanding variables -------------------------------------------------------

/// The first index of `c` in `s`, if any.
pub open spec fn index_of(s: Seq<char>, c: char) -> Option<int>
    decreases s.len(),
{
    if s.len() == 0 {
        None
    } else if s[0] == c {
        Some(0)
    } else {
        match index_of(s.drop_first(), c) {
            Some(i) => Some(i + 1),
            None => None,
        }
    }
}

pub proof fn lemma_index_of(s: Seq<char>, c: char)
    ensures
        match index_of(s, c) {
            Some(i) => 0 <= i < s.len() && s[i] == c && forall|j: int| 0 <= j < i ==> s[j] != c,
            None => forall|j: int| 0 <= j < s.len() ==> s[j] != c,
        },
    decreases s.len(),
{
    if s.len() > 0 && s[0] != c {
        lemma_index_of(s.drop_first(), c);
        match index_of(s.drop_first(), c) {
            Some(i) => {
                assert forall|j: int| 0 <= j < i + 1 implies s[j] != c by {
                    if j > 0 {
                        assert(s[j] == s.drop_first()[j - 1]);
                    }
                }
            },
            None => {
                assert forall|j: int| 0 <= j < s.len() implies s[j] != c by {
                    if j > 0 {
                        assert(s[j] == s.drop_first()[j - 1]);
                    }
                }
            },
        }
    }
}

pub proof fn lemma_index_of_unique(s: Seq<char>, c: char, i: int)
    requires
        0 <= i < s.len(),
        s[i] == c,
        forall|j: int| 0 <= j < i ==> s[j] != c,
    ensures
        index_of(s, c) == Some(i),
{
    lemma_index_of(s, c);
    match index_of(s, c) {
        Some(k) => {
            if k < i {
                assert(s[k] != c);
            } else if k > i {
                assert(s[i] != c);
            }
        },
        None => {
            assert(s[i] != c);
        },
    }
}

/// Characters a bare `$NAME` is made of: ASCII letters and digits, and `_`.
pub open spec fn is_name_char(c: char) -> bool {
    ('a' <= c && c <= 'z') || ('A' <= c && c <= 'Z') || ('0' <= c && c <= '9') || c == '_'
}

/// How many leading characters of `s` are name characters.
pub open spec fn name_len(s: Seq<char>) -> nat
    decreases s.len(),
{
    if s.len() > 0 && is_name_char(s[0]) {
        1 + name_len(s.drop_first())
    } else {
        0
    }
}

/// The value an environment gives `name`: the first entry with that name.
pub open spec fn env_lookup(env: Seq<(Seq<char>, Seq<char>)>, name: Seq<char>) -> Option<Seq<char>>
    decreases env.len(),
{
    if env.len() == 0 {
        None
    } else if env[0].0 == name {
        Some(env[0].1)
    } else {
        env_lookup(env.drop_first(), name)
    }
}

/// Why a string could not be expanded.
pub enum ExpandFailure {
    /// `$NAME` or `${NAME}` names a variable the environment does not set.
    Unset(Seq<char>),
    /// `${` with no `}` after it.
    Unclosed,
    /// `${}`.
    NoName,
}

/// Prefixes an expansion's result with `p`; a failure stays a failure.
pub open spec fn after(p: Seq<char>, r: Result<Seq<char>, ExpandFailure>) -> Result<Seq<char>, ExpandFailure> {
    match r {
        Ok(rest) => Ok(p + rest),
        Err(e) => Err(e),
    }
}

/// Expansion of `s` in `env`: `$$` is a literal `$`; `${NAME}` and `$NAME`
/// (the longest run of name characters) are the variable's value, and an
/// unset variable is a failure; `${` without `}` and `${}` are failures; a
/// `$` followed by anything else is itself.
pub open spec fn expansion(s: Seq<char>, env: Seq<(Seq<char>, Seq<char>)>) -> Result<Seq<char>, ExpandFailure>
    decreases s.len(),
{
    proof {
        lemma_index_of(s, '$');
    }
    match index_of(s, '$') {
        None => Ok(s),
        Some(at) => {
            let pre = s.take(at);
            let rest = s.skip(at + 1);
            if rest.len() > 0 && rest[0] == '$' {
                after(pre.push('$'), expansion(rest.drop_first(), env))
            } else if rest.len() > 0 && rest[0] == '{' {
                let braced = rest.drop_first();
                proof {
                    lemma_index_of(braced, '}');
                }
                match index_of(braced, '}') {
                    None => Err(ExpandFailure::Unclosed),
                    Some(end) => {
                        let name = braced.take(end);
                        if name.len() == 0 {
                            Err(ExpandFailure::NoName)
                        } else {
                            match env_lookup(env, name) {
                                None => Err(ExpandFailure::Unset(name)),
                                Some(v) => after(pre + v, expansion(braced.skip(end + 1), env)),
                            }
                        }
                    },
                }
            } else {
                let n = name_len(rest);
                proof {
                    lemma_name_len_bound(rest);
                }
                let name = rest.take(n as int);
                if n == 0 {
                    after(pre.push('$'), expansion(rest, env))
                } else {
                    match env_lookup(env, name) {
                        None => Err(ExpandFailure::Unset(name)),
                        Some(v) => after(pre + v, expansion(rest.skip(n as int), env)),
                    }
                }
            }
        },
    }
}

pub proof fn lemma_after_after(a: Seq<char>, b: Seq<char>, r: Result<Seq<char>, ExpandFailure>)
    ensures
        after(a, after(b, r)) == after(a + b, r),
{
    match r {
        Ok(x) => assert(a + (b + x) =~= (a + b) + x),
        Err(_) => {},
    }
}

/// Finds `c` in `v` at or after `from`.
fn find_from(v: &Vec<char>, from: usize, c: char) -> (out: Option<usize>)
    requires
        from <= v.len(),
    ensures
        match out {
            Some(i) => from <= i < v.len() && index_of(v@.skip(from as int), c) == Some(i - from),
            None => index_of(v@.skip(from as int), c) is None,
        },
{
    let ghost s = v@.skip(from as int);
    let mut i = from;
    while i < v.len()
        invariant
            from <= i <= v.len(),
            s == v@.skip(from as int),
            forall|j: int| from <= j < i ==> v@[j] != c,
        decreases v.len() - i,
    {
        if v[i] == c {
            proof {
                assert forall|j: int| 0 <= j < i - from implies s[j] != c by {
                    assert(s[j] == v@[from + j]);
                }
                lemma_index_of_unique(s, c, i - from);
            }
            return Some(i);
        }
        i = i + 1;
    }
    proof {
        lemma_index_of(s, c);
        if index_of(s, c) is Some {
            let k = index_of(s, c)->Some_0;
            assert(s[k] == v@[from + k]);
        }
    }
    None
}

/// Whether `c` may stand in a bare `$NAME`.
fn name_char(c: char) -> (b: bool)
    ensures
        b == is_name_char(c),
{
    ('a' <= c && c <= 'z') || ('A' <= c && c <= 'Z') || ('0' <= c && c <= '9') || c == '_'
}

pub proof fn lemma_name_len_bound(s: Seq<char>)
    ensures
        name_len(s) <= s.len(),
    decreases s.len(),
{
    if s.len() > 0 && is_name_char(s[0]) {
        lemma_name_len_bound(s.drop_first());
    }
}

/// Where the bare name that starts at `from` ends.
fn name_end(v: &Vec<char>, from: usize) -> (end: usize)
    requires
        from <= v.len(),
    ensures
        from <= end <= v.len(),
        end - from == name_len(v@.skip(from as int)),
    decreases v.len() - from,
{
    if from < v.len() && name_char(v[from]) {
        let e = name_end(v, from + 1);
        assert(v@.skip(from as int).drop_first() =~= v@.skip(from + 1));
        e
    } else {
        e_zero(v, from)
    }
}

fn e_zero(v: &Vec<char>, from: usize) -> (end: usize)
    requires
        from <= v.len(),
        !(from < v.len() && is_name_char(v@[from as int])),
    ensures
        end == from,
        end - from == name_len(v@.skip(from as int)),
{
    assert(from < v.len() ==> v@.skip(from as int)[0] == v@[from as int]);
    from
}

/// The value `env` gives `name`.
fn lookup(env: &Vec<(String, String)>, name: &Vec<char>) -> (out: Option<Vec<char>>)
    ensures
        match out {
            Some(v) => env_lookup(env_view(env@), name@) == Some(v@),
            None => env_lookup(env_view(env@), name@) is None,
        },
{
    let mut i: usize = 0;
    assert(env_view(env@).skip(0) =~= env_view(env@));
    while i < env.len()
        invariant
            i <= env.len(),
            env_lookup(env_view(env@), name@) == env_lookup(env_view(env@).skip(i as int), name@),
        decreases env.len() - i,
    {
        let key = chars_of(env[i].0.as_str());
        let ghost rest = env_view(env@).skip(i as int);
        assert(rest[0] == (env@[i as int].0@, env@[i as int].1@));
        if vec_eq(&key, name) {
            return Some(chars_of(env[i].1.as_str()));
        }
        assert(rest.drop_first() =~= env_view(env@).skip(i + 1));
        i = i + 1;
    }
    assert(env_view(env@).skip(i as int) =~= Seq::<(Seq<char>, Seq<char>)>::empty());
    None
}

/// The environment as pairs of texts.
pub open spec fn env_view(env: Seq<(String, String)>) -> Seq<(Seq<char>, Seq<char>)> {
    env.map_values(|p: (String, String)| (p.0@, p.1@))
}

/// Copies `v[from..to]`.
fn slice_of(v: &Vec<char>, from: usize, to: usize) -> (out: Vec<char>)
    requires
        from <= to <= v.len(),
    ensures
        out@ == v@.subrange(from as int, to as int),
{
    let mut out: Vec<char> = Vec::new();
    let mut i = from;
    while i < to
        invariant
            from <= i <= to,
            to <= v.len(),
            out@ =~= v@.subrange(from as int, i as int),
        decreases to - i,
    {
        out.push(v[i]);
        i = i + 1;
    }
    out
}

/// Expands `$NAME` / `${NAME}` / `$$` in one string, reading variables from
/// `env` (a variable is set when some entry names it; the first one counts).
pub fn expand(text: &str, env: &Vec<(String, String)>) -> (out: Result<String, ConfigError>)
    ensures
        match expansion(text@, env_view(env@)) {
            Ok(s) => out is Ok && out->Ok_0@ == s,
            Err(ExpandFailure::Unset(name)) => out is Err && out->Err_0 is UnsetVar
                && out->Err_0->UnsetVar_0@ == name,
            Err(ExpandFailure::Unclosed) => out is Err && out->Err_0 == (ConfigError::BadVar {
                text: out->Err_0->text,
                why: "opens ${ and never closes it",
            }) && out->Err_0->text@ == text@,
            Err(ExpandFailure::NoName) => out is Err && out->Err_0 == (ConfigError::BadVar {
                text: out->Err_0->text,
                why: "names no variable between ${ and }",
            }) && out->Err_0->text@ == text@,
        },
{
    let v = chars_of(text);
    let mut out: Vec<char> = Vec::new();
    let mut i: usize = 0;
    assert(v@.skip(0) =~= v@);
    assert(out@ + text@ =~= text@);
    assert(after(out@, expansion(v@.skip(0), env_view(env@))) == expansion(text@, env_view(env@))) by {
        match expansion(text@, env_view(env@)) {
            Ok(r) => assert(out@ + r =~= r),
            Err(_) => {},
        }
    }
    loop
        invariant
            i <= v.len(),
            v@ == text@,
            expansion(text@, env_view(env@)) == after(out@, expansion(v@.skip(i as int), env_view(env@))),
        decreases v.len() - i,
    {
        let ghost s = v@.skip(i as int);
        let ghost envv = env_view(env@);
        let ghost out0 = out@;
        match find_from(&v, i, '$') {
            None => {
                let tail = slice_of(&v, i, v.len());
                push_chars(&mut out, &tail);
                assert(tail@ =~= s);
                return Ok(string_of(&out));
            },
            Some(at) => {
                let pre = slice_of(&v, i, at);
                assert(pre@ =~= s.take(at - i));
                let r = at + 1;
                let ghost rest = s.skip(at - i + 1);
                assert(rest =~= v@.skip(r as int));
                if r < v.len() && v[r] == '$' {
                    push_chars(&mut out, &pre);
                    out.push('$');
                    assert(rest.drop_first() =~= v@.skip(r + 1));
                    assert(rest[0] == v@[r as int]);
                    assert(expansion(s, envv) == after(pre@.push('$'), expansion(v@.skip(r + 1), envv)));
                    proof {
                        lemma_after_after(out0, pre@.push('$'), expansion(v@.skip(r + 1), envv));
                    }
                    assert(out@ =~= out0 + pre@.push('$'));
                    i = r + 1;
                } else if r < v.len() && v[r] == '{' {
                    let b = r + 1;
                    let ghost braced = rest.drop_first();
                    assert(braced =~= v@.skip(b as int));
                    match find_from(&v, b, '}') {
                        None => {
                            return Err(
                                ConfigError::BadVar {
                                    text: owned(text),
                                    why: "opens ${ and never closes it",
                                },
                            );
                        },
                        Some(end) => {
                            let name = slice_of(&v, b, end);
                            assert(name@ =~= braced.take(end - b));
                            if name.len() == 0 {
                                return Err(
                                    ConfigError::BadVar {
                                        text: owned(text),
                                        why: "names no variable between ${ and }",
                                    },
                                );
                            }
                            match lookup(env, &name) {
                                None => {
                                    return Err(ConfigError::UnsetVar(string_of(&name)));
                                },
                                Some(value) => {
                                    push_chars(&mut out, &pre);
                                    push_chars(&mut out, &value);
                                    assert(braced.skip(end - b + 1) =~= v@.skip(end + 1));
                                    assert(rest[0] == v@[r as int]);
                                    assert(expansion(s, envv) == after(pre@ + value@, expansion(v@.skip(end + 1), envv)));
                                    proof {
                                        lemma_after_after(out0, pre@ + value@, expansion(v@.skip(end + 1), envv));
                                    }
                                    assert(out@ =~= out0 + (pre@ + value@));
                                    i = end + 1;
                                },
                            }
                        },
                    }
                } else {
                    let e = name_end(&v, r);
                    if e == r {
                        push_chars(&mut out, &pre);
                        out.push('$');
                        assert(r < v.len() ==> rest[0] == v@[r as int]);
                        assert(expansion(s, envv) == after(pre@.push('$'), expansion(v@.skip(r as int), envv)));
                        proof {
                            lemma_after_after(out0, pre@.push('$'), expansion(v@.skip(r as int), envv));
                        }
                        assert(out@ =~= out0 + pre@.push('$'));
                        i = r;
                    } else {
                        let name = slice_of(&v, r, e);
                        assert(name@ =~= rest.take(e - r));
                        match lookup(env, &name) {
                            None => {
                                return Err(ConfigError::UnsetVar(string_of(&name)));
                            },
                            Some(value) => {
                                push_chars(&mut out, &pre);
                                push_chars(&mut out, &value);
                                assert(rest.skip(e - r) =~= v@.skip(e as int));
                                assert(rest[0] == v@[r as int]);
                                assert(expansion(s, envv) == after(pre@ + value@, expansion(v@.skip(e as int), envv)));
                                proof {
                                    lemma_after_after(out0, pre@ + value@, expansion(v@.skip(e as int), envv));
                                }
                                assert(out@ =~= out0 + (pre@ + value@));
                                i = e;
                            },
                        }
                    }
                }
            },
        }
    }
}

// --- The configuration ----------------------------------------------------------

/// Failure to obtain a `Config`.
#[derive(Debug)]
pub enum ConfigError {
    /// No file was there, so the default was written to this path.
    Written(std::path::PathBuf),
    Read { path: std::path::PathBuf, source: std::io::Error },
    Write { path: std::path::PathBuf, source: std::io::Error },
    Parse { path: std::path::PathBuf, source: toml::de::Error },
    Malformed(toml::de::Error),
    /// The configuration names `$NAME`, which is not set.
    UnsetVar(String),
    BadVar { text: String, why: &'static str },
    /// `key` names the model `slug`, and no `[model.slug]` says what that is.
    NoSuchSlug { key: String, slug: String },
    /// `$XDG_CONFIG_HOME` is not set and no `--config` was given.
    Nowhere,
}

#[verifier::external_type_specification]
#[verifier::external_body]
pub struct ExPathBuf(std::path::PathBuf);

#[verifier::external_type_specification]
#[verifier::external_body]
pub struct ExIoError(std::io::Error);

#[verifier::external_type_specification]
#[verifier::external_body]
pub struct ExTomlError(toml::de::Error);

} // verus!

verus! {

/// One model and how to reach it.
#[derive(Debug, Clone, PartialEq, Eq, Hash)]
pub struct ModelSpec {
    pub endpoint: String,
    pub api_key: String,
    pub model: String,
    /// `None` for no reasoning, or the reasoning level asked for.
    pub effort: Option<String>,
}

/// Which slug does which work.
#[derive(Debug, Clone, PartialEq)]
pub struct ModelChoices {
    /// Fallback for every Session.
    pub all: String,
    pub comms: Option<String>,
    pub planning: Option<String>,
    pub research: Option<String>,
    pub memory: Option<String>,
    pub task_manager: Option<String>,
}

/// Metacognition settings.
#[derive(Debug, Clone, PartialEq)]
pub struct Metacognition {
    pub interrupt_interval: usize,
    pub model: String,
}

/// Embedding model for `memory` search.
#[derive(Debug, Clone, PartialEq)]
pub struct Embedding {
    pub endpoint: String,
    pub api_key: String,
    pub model: String,
}

/// Ways a human reaches the swarm.
#[derive(Debug, Clone, PartialEq)]
pub struct Channels {
    pub stdio: bool,
    pub web: bool,
}

/// Where the web tools reach.
#[derive(Debug, Clone, PartialEq)]
pub struct Tools {
    pub searxng_endpoint: String,
}

/// Bench settings.
#[derive(Debug, Clone, PartialEq)]
pub struct Bench {
    pub grader: String,
    /// Per-case bound in seconds. A case that runs past it trips.
    pub timeout: i64,
}

/// The world configuration, as far as it decides anything: the `[model.*]`
/// tables by slug (each slug once), which slug does which work, and the
/// settings of metacognition, embedding, channels, tools and bench.
#[derive(Debug, Clone, PartialEq)]
pub struct Config {
    pub model: Vec<(String, ModelSpec)>,
    pub models: ModelChoices,
    pub metacognition: Metacognition,
    pub embedding: Embedding,
    pub channels: Channels,
    pub tools: Tools,
    pub bench: Bench,
}

/// The optional slug a choice gives, as text.
pub open spec fn opt_text(o: Option<String>) -> Option<Seq<char>> {
    match o {
        Some(s) => Some(s@),
        None => None,
    }
}

/// The slug configured for a Role, if any.
pub open spec fn role_slug(m: ModelChoices, role: RoleName) -> Option<Seq<char>> {
    match role {
        RoleName::Research => opt_text(m.research),
        RoleName::Planning => opt_text(m.planning),
        RoleName::Memory => opt_text(m.memory),
        RoleName::TaskManager => opt_text(m.task_manager),
    }
}

/// The index of the first `[model.slug]` table at or after `start`, if any.
pub open spec fn model_index_from(models: Seq<(String, ModelSpec)>, slug: Seq<char>, start: int) -> Option<int>
    decreases models.len() - start,
{
    if start < 0 || start >= models.len() {
        None
    } else if models[start].0@ == slug {
        Some(start)
    } else {
        model_index_from(models, slug, start + 1)
    }
}

/// The index of the `[model.slug]` table, if there is one.
pub open spec fn model_index(models: Seq<(String, ModelSpec)>, slug: Seq<char>) -> Option<int> {
    model_index_from(models, slug, 0)
}

pub proof fn lemma_model_index_from(models: Seq<(String, ModelSpec)>, slug: Seq<char>, start: int)
    requires
        0 <= start,
    ensures
        match model_index_from(models, slug, start) {
            Some(i) => start <= i < models.len() && models[i].0@ == slug,
            None => forall|i: int| start <= i < models.len() ==> models[i].0@ != slug,
        },
    decreases models.len() - start,
{
    if start < models.len() && models[start].0@ != slug {
        lemma_model_index_from(models, slug, start + 1);
    }
}

/// Whether a `[model.slug]` table exists.
pub open spec fn slug_defined(c: Config, slug: Seq<char>) -> bool {
    model_index(c.model@, slug) is Some
}

/// The first `(key, slug)` the configuration names with no `[model.*]`
/// table, checked in this order: `models.all`, each Role's own slug
/// (research, planning, memory, task_manager), `models.comms`,
/// `metacognition.model`, `bench.grader`.
pub open spec fn first_missing(c: Config) -> Option<(Seq<char>, Seq<char>)> {
    let m = c.models;
    if !slug_defined(c, m.all@) {
        Some(("models.all"@, m.all@))
    } else if m.research is Some && !slug_defined(c, m.research->Some_0@) {
        Some(("models.research"@, m.research->Some_0@))
    } else if m.planning is Some && !slug_defined(c, m.planning->Some_0@) {
        Some(("models.planning"@, m.planning->Some_0@))
    } else if m.memory is Some && !slug_defined(c, m.memory->Some_0@) {
        Some(("models.memory"@, m.memory->Some_0@))
    } else if m.task_manager is Some && !slug_defined(c, m.task_manager->Some_0@) {
        Some(("models.task_manager"@, m.task_manager->Some_0@))
    } else if m.comms is Some && !slug_defined(c, m.comms->Some_0@) {
        Some(("models.comms"@, m.comms->Some_0@))
    } else if !slug_defined(c, c.metacognition.model@) {
        Some(("metacognition.model"@, c.metacognition.model@))
    } else if !slug_defined(c, c.bench.grader@) {
        Some(("bench.grader"@, c.bench.grader@))
    } else {
        None
    }
}

/// Every slug the configuration names has a `[model.*]` table.
pub open spec fn slugs_checked(c: Config) -> bool {
    first_missing(c) is None
}

/// The table a defined slug names.
pub open spec fn spec_of(c: Config, slug: Seq<char>) -> ModelSpec {
    c.model@[model_index(c.model@, slug)->Some_0].1
}

impl ModelChoices {
    /// Slug for this Role, if one is configured.
    pub fn named_for(&self, role: RoleName) -> (out: Option<&String>)
        ensures
            opt_text(match out { Some(s) => Some(*s), None => None }) == role_slug(*self, role),
    {
        match role {
            RoleName::Research => self.research.as_ref(),
            RoleName::Planning => self.planning.as_ref(),
            RoleName::Memory => self.memory.as_ref(),
            RoleName::TaskManager => self.task_manager.as_ref(),
        }
    }
}

impl Config {
    /// Lookup spec by slug.
    pub fn spec(&self, slug: &str) -> (out: Option<&ModelSpec>)
        ensures
            match model_index(self.model@, slug@) {
                Some(i) => out is Some && *out->Some_0 == self.model@[i].1,
                None => out is None,
            },
    {
        match self.find(slug) {
            Some(i) => Some(&self.model[i].1),
            None => None,
        }
    }

    fn find(&self, slug: &str) -> (out: Option<usize>)
        ensures
            out is Some <==> model_index(self.model@, slug@) is Some,
            out is Some ==> out->Some_0 < self.model@.len() && model_index(self.model@, slug@) == Some(
                out->Some_0 as int,
            ),
    {
        proof {
            lemma_model_index_from(self.model@, slug@, 0);
        }
        let mut i: usize = 0;
        while i < self.model.len()
            invariant
                i <= self.model.len(),
                model_index(self.model@, slug@) == model_index_from(self.model@, slug@, i as int),
            decreases self.model.len() - i,
        {
            if str_eq(self.model[i].0.as_str(), slug) {
                return Some(i);
            }
            i = i + 1;
        }
        None
    }

    /// Whether the table for `slug` exists.
    fn defined(&self, slug: &String) -> (b: bool)
        ensures
            b == slug_defined(*self, slug@),
    {
        self.find(slug.as_str()).is_some()
    }

    /// Verifies every named slug has a `[model.*]` table; the first one that
    /// has none, in the order `first_missing` checks, is the error.
    pub fn check_slugs(&self) -> (out: Result<(), ConfigError>)
        ensures
            match first_missing(*self) {
                None => out is Ok,
                Some(missing) => out is Err && out->Err_0 is NoSuchSlug && out->Err_0->key@ == missing.0
                    && out->Err_0->slug@ == missing.1,
            },
    {
        let m = &self.models;
        if !self.defined(&m.all) {
            return Err(missing("models.all", &m.all));
        }
        if let Some(s) = &m.research {
            if !self.defined(s) {
                return Err(missing("models.research", s));
            }
        }
        if let Some(s) = &m.planning {
            if !self.defined(s) {
                return Err(missing("models.planning", s));
            }
        }
        if let Some(s) = &m.memory {
            if !self.defined(s) {
                return Err(missing("models.memory", s));
            }
        }
        if let Some(s) = &m.task_manager {
            if !self.defined(s) {
                return Err(missing("models.task_manager", s));
            }
        }
        if let Some(s) = &m.comms {
            if !self.defined(s) {
                return Err(missing("models.comms", s));
            }
        }
        if !self.defined(&self.metacognition.model) {
            return Err(missing("metacognition.model", &self.metacognition.model));
        }
        if !self.defined(&self.bench.grader) {
            return Err(missing("bench.grader", &self.bench.grader));
        }
        Ok(())
    }

    /// Resolves a slug the configuration names.
    fn resolve(&self, slug: &String) -> (out: &ModelSpec)
        requires
            slug_defined(*self, slug@),
        ensures
            *out == spec_of(*self, slug@),
    {
        let i = self.find(slug.as_str()).unwrap();
        let entry = &self.model[i];
        assert(*entry == self.model@[i as int]);
        assert(model_index(self.model@, slug@) == Some(i as int));
        &entry.1
    }

    /// Spec for `models.all`.
    pub fn for_all(&self) -> (out: &ModelSpec)
        requires
            slugs_checked(*self),
        ensures
            *out == spec_of(*self, self.models.all@),
    {
        self.resolve(&self.models.all)
    }

    /// Spec for a Role's Workers: the Role's own slug, else `models.all`.
    pub fn for_role(&self, role: RoleName) -> (out: &ModelSpec)
        requires
            slugs_checked(*self),
        ensures
            *out == spec_of(*self, match role_slug(self.models, role) {
                Some(s) => s,
                None => self.models.all@,
            }),
    {
        match self.models.named_for(role) {
            Some(slug) => self.resolve(slug),
            None => self.resolve(&self.models.all),
        }
    }

    /// Spec for the Comms Session: `models.comms`, else `models.all`.
    pub fn for_comms(&self) -> (out: &ModelSpec)
        requires
            slugs_checked(*self),
        ensures
            *out == spec_of(*self, match opt_text(self.models.comms) {
                Some(s) => s,
                None => self.models.all@,
            }),
    {
        match &self.models.comms {
            Some(slug) => self.resolve(slug),
            None => self.resolve(&self.models.all),
        }
    }

    /// Spec for review and interrupt.
    pub fn for_metacognition(&self) -> (out: &ModelSpec)
        requires
            slugs_checked(*self),
        ensures
            *out == spec_of(*self, self.metacognition.model@),
    {
        self.resolve(&self.metacognition.model)
    }

    /// Spec for the bench grader.
    pub fn for_grader(&self) -> (out: &ModelSpec)
        requires
            slugs_checked(*self),
        ensures
            *out == spec_of(*self, self.bench.grader@),
    {
        self.resolve(&self.bench.grader)
    }
}

/// `key` names `slug`, which nothing defines.
fn missing(key: &str, slug: &String) -> (e: ConfigError)
    ensures
        e is NoSuchSlug && e->key@ == key@ && e->slug@ == slug@,
{
    ConfigError::NoSuchSlug { key: owned(key), slug: slug.clone() }
}

/// What a model's `effort` key says: a flag, or a level of reasoning.
#[derive(Debug, Clone, PartialEq, Eq)]
pub enum EffortSetting {
    Flag(bool),
    Level(String),
}

/// The reasoning a model is asked for: `false` asks for none, a level for
/// that level; `true` says nothing and is refused (`None`).
pub fn effort(given: EffortSetting) -> (out: Option<Option<String>>)
    ensures
        match given {
            EffortSetting::Flag(false) => out == Some(None::<String>),
            EffortSetting::Flag(true) => out is None,
            EffortSetting::Level(level) => out == Some(Some(level)),
        },
{
    match given {
        EffortSetting::Flag(false) => Some(None),
        EffortSetting::Flag(true) => None,
        EffortSetting::Level(level) => Some(Some(level)),
    }
}

} // verus!
