//! Configuration document types and their normalization into the runtime
//! ruleset consumed by the text transformation pipeline.

use vstd::prelude::*;
use vstd::string::*;
use crate::pattern::{Pattern, regex_valid};

verus! {

/// A configuration value that is either one string or a list of strings.
/// Downstream it is always flattened to an ordered list.
#[derive(Clone)]
pub enum StringOrVecString {
    Single(String),
    Multiple(Vec<String>),
}

/// An outbound bus message carrying a console command for another server.
#[derive(Debug)]
pub struct MsgUtil {
    pub server_name: String,
    pub rcon: String,
}

/// An inbound bus message addressed to the text handler.
#[derive(Debug)]
pub struct MsgHandler {
    pub server_name: Option<String>,
    pub name: Option<String>,
    pub message_thread_id: String,
    pub text: Option<String>,
}

/// An outbound bus message produced from a transformed console line.
#[derive(Debug, Clone)]
pub struct MsgBridge {
    pub server_name: String,
    pub message_thread_id: String,
    pub text: String,
}

/// How one administrative command is to be propagated: the console text to
/// forward, and whether it belongs to the sync and log command sets.
pub struct RconData {
    pub text: Option<String>,
    pub sync: bool,
    pub log: bool,
}

impl Default for RconData {
    /// No text, in neither command set.
    fn default() -> (r: Self)
        ensures
            r.text is None,
            !r.sync,
            !r.log,
    {
        RconData { text: Option::None, sync: false, log: false }
    }
}

/// One entry of the configuration's path list, every field optional as it
/// arrives from the loader.
pub struct NatsHandlerPaths {
    pub read: Option<String>,
    pub regex: Option<StringOrVecString>,
    pub write: Option<StringOrVecString>,
    pub template: Option<String>,
}

/// The bus section of the configuration document.
pub struct EnvNats {
    pub server: String,
    pub user: Option<String>,
    pub password: Option<String>,
    pub read_path: Option<StringOrVecString>,
    pub write_path: Option<StringOrVecString>,
    pub paths: Option<Vec<NatsHandlerPaths>>,
}

/// The console-connection section of the configuration document.
pub struct EnvEcon {
    pub host: Option<String>,
    pub password: Option<String>,
    pub auth_message: Option<String>,
}

/// Explicitly configured command sets; when present, a list fully replaces
/// the built-in default for that set.
pub struct Commands {
    pub sync: Option<Vec<String>>,
    pub log: Option<Vec<String>>,
}

/// The raw configuration document as supplied by the external loader, with
/// optional and union-typed fields still in their as-parsed shape.
pub struct Env {
    pub nats: EnvNats,
    pub check_status_econ: Option<u64>,
    pub message_thread_id: Option<String>,
    pub server_name: Option<String>,
    pub econ: Option<EnvEcon>,
    pub text: Option<String>,
    pub text_leave: Option<String>,
    pub text_join: Option<String>,
    pub text_edit_nickname: Option<String>,
    pub nickname_regex: Option<Vec<(String, String)>>,
    pub block_text_in_nickname: Option<Vec<(String, String)>>,
    pub chat_regex: Option<Vec<(String, String)>>,
    pub block_text_in_chat: Option<Vec<(String, String)>>,
    pub commands: Option<Commands>,
}

/// One fully resolved read/regex/write/template mapping of the runtime
/// ruleset.
pub struct HandlerPaths {
    pub read: String,
    pub regex: Vec<Pattern>,
    pub write: Vec<String>,
    pub template: String,
}

/// The canonical, fully resolved configuration used at message-processing
/// time: every regex compiled, every union field flattened, every template
/// defaulted.
pub struct EnvHandler {
    pub paths: Vec<HandlerPaths>,
    pub text: String,
    pub text_leave: String,
    pub text_join: String,
    pub text_edit_nickname: String,
    pub nickname_regex: Vec<(Pattern, String)>,
    pub block_text_in_nickname: Vec<(String, String)>,
    pub chat_regex: Vec<(Pattern, String)>,
    pub block_text_in_chat: Vec<(String, String)>,
}

/// A configuration error found while normalizing the raw document.
#[derive(Clone, Copy, Debug, PartialEq, Eq, Structural)]
pub enum ConfigError {
    /// A path entry has no read source.
    MissingPathRead,
    /// A path entry's regex does not compile.
    InvalidPathRegex,
}

pub open spec fn strings_view(v: Seq<String>) -> Seq<Seq<char>> {
    v.map_values(|s: String| s@)
}

pub open spec fn pairs_view(v: Seq<(String, String)>) -> Seq<(Seq<char>, Seq<char>)> {
    v.map_values(|p: (String, String)| (p.0@, p.1@))
}

/// The flattened form of an optional union field: the default when absent,
/// a one-element list for a single string, the list itself otherwise.
pub open spec fn spec_get_path(
    path: Option<StringOrVecString>,
    default: Seq<Seq<char>>,
) -> Seq<Seq<char>> {
    match path {
        Option::None => default,
        Option::Some(StringOrVecString::Single(s)) => seq![s@],
        Option::Some(StringOrVecString::Multiple(v)) => strings_view(v@),
    }
}

/// Flattens an optional union field to an ordered list of strings,
/// order preserved, falling back to `default` when the field is absent.
pub fn get_path(path: Option<StringOrVecString>, default: Vec<String>) -> (r: Vec<String>)
    ensures
        strings_view(r@) == spec_get_path(path, strings_view(default@)),
{
    match path {
        Option::None => default,
        Option::Some(StringOrVecString::Single(s)) => {
            let ghost sv = s@;
            let mut r: Vec<String> = Vec::new();
            r.push(s);
            proof {
                assert(strings_view(r@) =~= seq![sv]);
            }
            r
        },
        Option::Some(StringOrVecString::Multiple(v)) => v,
    }
}

fn clone_string_vec(v: &Vec<String>) -> (r: Vec<String>)
    ensures
        strings_view(r@) == strings_view(v@),
{
    let mut r: Vec<String> = Vec::new();
    let mut i: usize = 0;
    while i < v.len()
        invariant
            0 <= i <= v.len(),
            r@.len() == i,
            forall|j: int| 0 <= j < i ==> r@[j]@ == v@[j]@,
        decreases v.len() - i,
    {
        r.push(v[i].clone());
        i += 1;
    }
    proof {
        assert(strings_view(r@) =~= strings_view(v@));
    }
    r
}

fn clone_pair_vec(v: &Vec<(String, String)>) -> (r: Vec<(String, String)>)
    ensures
        pairs_view(r@) == pairs_view(v@),
{
    let mut r: Vec<(String, String)> = Vec::new();
    let mut i: usize = 0;
    while i < v.len()
        invariant
            0 <= i <= v.len(),
            r@.len() == i,
            forall|j: int| 0 <= j < i ==> r@[j].0@ == v@[j].0@ && r@[j].1@ == v@[j].1@,
        decreases v.len() - i,
    {
        let p = &v[i];
        r.push((p.0.clone(), p.1.clone()));
        i += 1;
    }
    proof {
        assert(pairs_view(r@) =~= pairs_view(v@));
    }
    r
}

/// Flattens a path entry's optional union field with an empty default,
/// leaving the entry itself in place.
fn norm_union(path: &Option<StringOrVecString>) -> (r: Vec<String>)
    ensures
        strings_view(r@) == spec_get_path(*path, Seq::empty()),
{
    match path {
        Option::None => Vec::new(),
        Option::Some(StringOrVecString::Single(s)) => {
            let ghost sv = s@;
            let mut r: Vec<String> = Vec::new();
            r.push(s.clone());
            proof {
                assert(strings_view(r@) =~= seq![sv]);
            }
            r
        },
        Option::Some(StringOrVecString::Multiple(v)) => clone_string_vec(v),
    }
}

/// The regex patterns a path entry declares, flattened.
pub open spec fn path_regexes(p: NatsHandlerPaths) -> Seq<Seq<char>> {
    spec_get_path(p.regex, Seq::empty())
}

/// A path entry is well formed when its read source is present and every
/// declared regex pattern compiles.
pub open spec fn path_entry_ok(p: NatsHandlerPaths) -> bool {
    &&& p.read is Some
    &&& forall|i: int| 0 <= i < path_regexes(p).len() ==> regex_valid(#[trigger] path_regexes(p)[i])
}

/// The configuration error reported for an ill-formed path entry: a missing
/// read source is reported before an invalid regex.
pub open spec fn path_entry_err(p: NatsHandlerPaths) -> ConfigError {
    if p.read is None {
        ConfigError::MissingPathRead
    } else {
        ConfigError::InvalidPathRegex
    }
}

/// The path rule `h` is the normalization of the raw entry `p`: read taken
/// verbatim, regexes compiled element-wise in order, write flattened, and
/// the template defaulted to the empty string.
pub open spec fn rule_matches_entry(h: HandlerPaths, p: NatsHandlerPaths) -> bool {
    &&& h.read@ == p.read->Some_0@
    &&& h.regex@.map_values(|q: Pattern| q@) == path_regexes(p)
    &&& strings_view(h.write@) == spec_get_path(p.write, Seq::empty())
    &&& h.template@ == match p.template {
        Option::Some(t) => t@,
        Option::None => Seq::<char>::empty(),
    }
}

impl HandlerPaths {
    /// Builds a path rule around one explicit regex pattern, with empty
    /// read source, write list and template; fails exactly when the
    /// pattern does not compile.
    pub fn new(regex: &str) -> (r: Result<Self, ConfigError>)
        ensures
            r is Ok <==> regex_valid(regex@),
            r matches Ok(h) ==> {
                &&& h.read@ == Seq::<char>::empty()
                &&& h.regex@.len() == 1
                &&& h.regex@[0]@ == regex@
                &&& h.write@.len() == 0
                &&& h.template@ == Seq::<char>::empty()
            },
            r matches Err(e) ==> e == ConfigError::InvalidPathRegex,
    {
        match Pattern::compile(regex) {
            Option::Some(p) => {
                let mut rv: Vec<Pattern> = Vec::new();
                rv.push(p);
                Result::Ok(
                    HandlerPaths {
                        read: String::new(),
                        regex: rv,
                        write: Vec::new(),
                        template: String::new(),
                    },
                )
            },
            Option::None => Result::Err(ConfigError::InvalidPathRegex),
        }
    }

    /// Normalizes one raw path entry into a path rule: the read source is
    /// required, the regex list is flattened and compiled element-wise,
    /// the write list is flattened, and an absent template becomes empty.
    pub fn from_nats(p: &NatsHandlerPaths) -> (r: Result<Self, ConfigError>)
        ensures
            r is Ok <==> path_entry_ok(*p),
            r matches Ok(h) ==> rule_matches_entry(h, *p),
            r matches Err(e) ==> e == path_entry_err(*p),
    {
        let read = match &p.read {
            Option::Some(s) => s.clone(),
            Option::None => {
                return Result::Err(ConfigError::MissingPathRead);
            },
        };
        let pats = norm_union(&p.regex);
        let mut regex: Vec<Pattern> = Vec::new();
        let mut i: usize = 0;
        while i < pats.len()
            invariant
                0 <= i <= pats.len(),
                p.read is Some,
                strings_view(pats@) == path_regexes(*p),
                regex@.len() == i,
                forall|j: int| 0 <= j < i ==> (#[trigger] regex@[j])@ == pats@[j]@,
                forall|j: int| 0 <= j < i ==> regex_valid(#[trigger] pats@[j]@),
            decreases pats.len() - i,
        {
            match Pattern::compile(pats[i].as_str()) {
                Option::Some(q) => {
                    regex.push(q);
                },
                Option::None => {
                    proof {
                        assert(!regex_valid(path_regexes(*p)[i as int]));
                    }
                    return Result::Err(ConfigError::InvalidPathRegex);
                },
            }
            i += 1;
        }
        let write = norm_union(&p.write);
        let template = match &p.template {
            Option::Some(t) => t.clone(),
            Option::None => String::new(),
        };
        let r = HandlerPaths { read, regex, write, template };
        proof {
            assert(r.regex@.map_values(|q: Pattern| q@) =~= strings_view(pats@));
            assert(forall|j: int|
                0 <= j < path_regexes(*p).len() ==> regex_valid(#[trigger] path_regexes(*p)[j]));
        }
        Result::Ok(r)
    }
}

/// A pattern/replacement list in which exactly the entries whose pattern
/// compiles survive, in order; every other entry is silently dropped.
pub open spec fn spec_compile_pairs(ps: Seq<(Seq<char>, Seq<char>)>) -> Seq<(Seq<char>, Seq<char>)>
    decreases ps.len(),
{
    if ps.len() == 0 {
        Seq::empty()
    } else if regex_valid(ps.last().0) {
        spec_compile_pairs(ps.drop_last()).push(ps.last())
    } else {
        spec_compile_pairs(ps.drop_last())
    }
}

/// The view of an optional pattern/replacement list, empty when absent.
pub open spec fn opt_pairs(x: Option<Vec<(String, String)>>) -> Seq<(Seq<char>, Seq<char>)> {
    match x {
        Option::Some(v) => pairs_view(v@),
        Option::None => Seq::empty(),
    }
}

/// The view of a compiled pattern/replacement list: pattern text and
/// replacement of each entry.
pub open spec fn rules_view(rules: Seq<(Pattern, String)>) -> Seq<(Seq<char>, Seq<char>)> {
    rules.map_values(|p: (Pattern, String)| (p.0@, p.1@))
}

/// Compiles an optional pattern/replacement list, silently dropping every
/// entry whose pattern the regex engine rejects.
fn compile_pairs(src: &Option<Vec<(String, String)>>) -> (r: Vec<(Pattern, String)>)
    ensures
        rules_view(r@) == spec_compile_pairs(opt_pairs(*src)),
{
    let v = match src {
        Option::Some(v) => v,
        Option::None => {
            let r: Vec<(Pattern, String)> = Vec::new();
            proof {
                assert(rules_view(r@) =~= spec_compile_pairs(Seq::empty()));
            }
            return r;
        },
    };
    let mut r: Vec<(Pattern, String)> = Vec::new();
    let mut i: usize = 0;
    while i < v.len()
        invariant
            0 <= i <= v.len(),
            rules_view(r@) == spec_compile_pairs(pairs_view(v@).take(i as int)),
        decreases v.len() - i,
    {
        let p = &v[i];
        proof {
            assert(pairs_view(v@).take(i + 1).drop_last() =~= pairs_view(v@).take(i as int));
            assert(pairs_view(v@).take(i + 1).last() == pairs_view(v@)[i as int]);
        }
        match Pattern::compile(p.0.as_str()) {
            Option::Some(q) => {
                r.push((q, p.1.clone()));
                proof {
                    assert(rules_view(r@) =~= spec_compile_pairs(pairs_view(v@).take(i + 1)));
                }
            },
            Option::None => {},
        }
        i += 1;
    }
    proof {
        assert(pairs_view(v@).take(v.len() as int) =~= pairs_view(v@));
    }
    r
}

/// The default literal block list for nicknames.
pub open spec fn default_nickname_blocks() -> Seq<(Seq<char>, Seq<char>)> {
    seq![("tw/"@, ""@), ("twitch.tv/"@, ""@)]
}

/// The view of an optional literal block list with its default.
pub open spec fn opt_blocks(
    x: Option<Vec<(String, String)>>,
    default: Seq<(Seq<char>, Seq<char>)>,
) -> Seq<(Seq<char>, Seq<char>)> {
    match x {
        Option::Some(v) => pairs_view(v@),
        Option::None => default,
    }
}

/// An optional template string with its default when absent.
pub open spec fn opt_template(t: Option<String>, default: Seq<char>) -> Seq<char> {
    match t {
        Option::Some(s) => s@,
        Option::None => default,
    }
}

/// The configured path entries, empty when the section is absent.
pub open spec fn paths_seq(e: Env) -> Seq<NatsHandlerPaths> {
    match e.nats.paths {
        Option::Some(v) => v@,
        Option::None => Seq::empty(),
    }
}

/// The built-in sync command set, used when none is configured.
pub open spec fn default_sync_commands() -> Seq<Seq<char>> {
    seq!["ban_range"@, "ban"@, "unban_range"@, "unban"@, "muteip"@]
}

/// The built-in log command set, used when none is configured.
pub open spec fn default_log_commands() -> Seq<Seq<char>> {
    seq!["ban"@, "ban_range"@, "unban"@, "unban_range"@, "kick"@, "muteid"@, "muteip"@]
}

/// The sync command set an RCD asks for: the configured list when present
/// (even when empty), the built-in default otherwise.
pub open spec fn spec_sync_commands(c: Option<Commands>) -> Seq<Seq<char>> {
    match c {
        Option::Some(cmds) => match cmds.sync {
            Option::Some(v) => strings_view(v@),
            Option::None => default_sync_commands(),
        },
        Option::None => default_sync_commands(),
    }
}

/// The log command set an RCD asks for: the configured list when present
/// (even when empty), the built-in default otherwise.
pub open spec fn spec_log_commands(c: Option<Commands>) -> Seq<Seq<char>> {
    match c {
        Option::Some(cmds) => match cmds.log {
            Option::Some(v) => strings_view(v@),
            Option::None => default_log_commands(),
        },
        Option::None => default_log_commands(),
    }
}

impl Env {
    /// Normalizes the raw document into the runtime ruleset: every path
    /// entry converted in order, the four templates defaulted when absent,
    /// both regex-rule lists compiled with invalid patterns dropped, and
    /// both literal block lists defaulted. Fails exactly when some path
    /// entry is ill-formed, with the first such entry's error.
    pub fn get_env_handler(&self) -> (r: Result<EnvHandler, ConfigError>)
        ensures
            r is Ok <==> (forall|i: int|
                0 <= i < paths_seq(*self).len() ==> path_entry_ok(#[trigger] paths_seq(*self)[i])),
            r matches Ok(h) ==> {
                &&& h.paths@.len() == paths_seq(*self).len()
                &&& forall|i: int|
                    0 <= i < h.paths@.len() ==> rule_matches_entry(
                        #[trigger] h.paths@[i],
                        paths_seq(*self)[i],
                    )
                &&& h.text@ == opt_template(self.text, "{{player}} {{text}}"@)
                &&& h.text_leave@ == opt_template(self.text_leave, "has left the game"@)
                &&& h.text_join@ == opt_template(self.text_join, "has join the game"@)
                &&& h.text_edit_nickname@ == opt_template(
                    self.text_edit_nickname,
                    "{{player}} > {{text}}"@,
                )
                &&& rules_view(h.nickname_regex@) == spec_compile_pairs(
                    opt_pairs(self.nickname_regex),
                )
                &&& pairs_view(h.block_text_in_nickname@) == opt_blocks(
                    self.block_text_in_nickname,
                    default_nickname_blocks(),
                )
                &&& rules_view(h.chat_regex@) == spec_compile_pairs(opt_pairs(self.chat_regex))
                &&& pairs_view(h.block_text_in_chat@) == opt_blocks(
                    self.block_text_in_chat,
                    Seq::empty(),
                )
            },
            r matches Err(e) ==> exists|i: int|
                {
                    &&& 0 <= i < paths_seq(*self).len()
                    &&& !path_entry_ok(#[trigger] paths_seq(*self)[i])
                    &&& e == path_entry_err(paths_seq(*self)[i])
                    &&& forall|j: int| 0 <= j < i ==> path_entry_ok(paths_seq(*self)[j])
                },
    {
        let mut handler_paths: Vec<HandlerPaths> = Vec::new();
        match &self.nats.paths {
            Option::Some(v) => {
                let mut i: usize = 0;
                while i < v.len()
                    invariant
                        0 <= i <= v.len(),
                        self.nats.paths matches Option::Some(pv) && pv@ == v@,
                        handler_paths@.len() == i,
                        forall|j: int|
                            0 <= j < i ==> rule_matches_entry(
                                #[trigger] handler_paths@[j],
                                v@[j],
                            ),
                        forall|j: int| 0 <= j < i ==> path_entry_ok(#[trigger] v@[j]),
                    decreases v.len() - i,
                {
                    match HandlerPaths::from_nats(&v[i]) {
                        Result::Ok(h) => {
                            handler_paths.push(h);
                        },
                        Result::Err(e) => {
                            proof {
                                assert(paths_seq(*self) =~= v@);
                                assert(!path_entry_ok(paths_seq(*self)[i as int]));
                                assert(e == path_entry_err(paths_seq(*self)[i as int]));
                            }
                            return Result::Err(e);
                        },
                    }
                    i += 1;
                }
            },
            Option::None => {},
        }
        let text = match &self.text {
            Option::Some(s) => s.clone(),
            Option::None => String::from_str("{{player}} {{text}}"),
        };
        let text_leave = match &self.text_leave {
            Option::Some(s) => s.clone(),
            Option::None => String::from_str("has left the game"),
        };
        let text_join = match &self.text_join {
            Option::Some(s) => s.clone(),
            Option::None => String::from_str("has join the game"),
        };
        let text_edit_nickname = match &self.text_edit_nickname {
            Option::Some(s) => s.clone(),
            Option::None => String::from_str("{{player}} > {{text}}"),
        };
        let nickname_regex = compile_pairs(&self.nickname_regex);
        let chat_regex = compile_pairs(&self.chat_regex);
        let block_text_in_nickname = match &self.block_text_in_nickname {
            Option::Some(v) => clone_pair_vec(v),
            Option::None => {
                let mut d: Vec<(String, String)> = Vec::new();
                d.push((String::from_str("tw/"), String::new()));
                d.push((String::from_str("twitch.tv/"), String::new()));
                proof {
                    reveal_strlit("");
                    assert(""@ =~= Seq::<char>::empty());
                    assert(pairs_view(d@) =~~= default_nickname_blocks());
                }
                d
            },
        };
        let block_text_in_chat = match &self.block_text_in_chat {
            Option::Some(v) => clone_pair_vec(v),
            Option::None => Vec::new(),
        };
        Result::Ok(
            EnvHandler {
                paths: handler_paths,
                text,
                text_leave,
                text_join,
                text_edit_nickname,
                nickname_regex,
                block_text_in_nickname,
                chat_regex,
                block_text_in_chat,
            },
        )
    }

    /// The sync and log command sets: each is the configured list when one
    /// is present — an empty configured list means an empty set — and the
    /// built-in default otherwise.
    pub fn get_commands(&self) -> (r: (Vec<String>, Vec<String>))
        ensures
            strings_view(r.0@) == spec_sync_commands(self.commands),
            strings_view(r.1@) == spec_log_commands(self.commands),
    {
        let configured_sync: Option<&Vec<String>> = match &self.commands {
            Option::Some(c) => match &c.sync {
                Option::Some(v) => Option::Some(v),
                Option::None => Option::None,
            },
            Option::None => Option::None,
        };
        let sync_commands = match configured_sync {
            Option::Some(v) => clone_string_vec(v),
            Option::None => {
                let mut d: Vec<String> = Vec::new();
                d.push(String::from_str("ban_range"));
                d.push(String::from_str("ban"));
                d.push(String::from_str("unban_range"));
                d.push(String::from_str("unban"));
                d.push(String::from_str("muteip"));
                proof {
                    assert(strings_view(d@) =~= default_sync_commands());
                }
                d
            },
        };
        let configured_log: Option<&Vec<String>> = match &self.commands {
            Option::Some(c) => match &c.log {
                Option::Some(v) => Option::Some(v),
                Option::None => Option::None,
            },
            Option::None => Option::None,
        };
        let log_commands = match configured_log {
            Option::Some(v) => clone_string_vec(v),
            Option::None => {
                let mut d: Vec<String> = Vec::new();
                d.push(String::from_str("ban"));
                d.push(String::from_str("ban_range"));
                d.push(String::from_str("unban"));
                d.push(String::from_str("unban_range"));
                d.push(String::from_str("kick"));
                d.push(String::from_str("muteid"));
                d.push(String::from_str("muteip"));
                proof {
                    assert(strings_view(d@) =~= default_log_commands());
                }
                d
            },
        };
        (sync_commands, log_commands)
    }
}

} // verus!
