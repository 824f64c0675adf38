//! `a2a models`: user-global cursor model aliases (list / available /
//! add / set / remove) and the display-only reading of model ids.
use vstd::prelude::*;
use crate::{A2aError, ErrView, user_err};
use crate::auth::pad_right;
use crate::auth::push_padded;
use crate::auth::store::{ModelAlias, Profile, eq_ignore_ascii_case, str_eq_ignore_ascii_case};
use crate::runner::{alias_strict_ok, earliest_index, profile_names};
use crate::runner::meta::opt_view;
use crate::text::{
    chars_of, contains_str, decimal, find_range, find_seq, join_seq, join_strings, lemma_find_some,
    push_decimal, push_string, split_by, split_char, str_eq, string_of, strings_view, trim_at,
    trim_seq,
};

verus! {

pub struct ModelsArgs {
    pub command: Option<ModelsCommand>,
    /// Verbose output for `list`; implies `list` when no subcommand.
    pub verbose: bool,
}

pub enum ModelsCommand {
    /// Show all configured aliases (the default).
    List { verbose: bool },
    /// Query cursor-agent for the upstream model catalog.
    Available { profile: Option<String> },
    /// Register a new alias.
    Add {
        alias: String,
        model: String,
        mode: Option<String>,
        thinking_hint: Option<String>,
        description: Option<String>,
        /// Allow overwriting an existing alias.
        force: bool,
    },
    /// Modify fields of an existing alias.
    SetFields {
        alias: String,
        model: Option<String>,
        mode: Option<String>,
        thinking_hint: Option<String>,
        description: Option<String>,
    },
    /// Remove an alias.
    Remove { alias: String, yes: bool },
}

/// The subcommand to run: `list` (with the top-level `--verbose`) when
/// none is given.
pub fn run(args: ModelsArgs) -> (c: ModelsCommand)
    ensures
        match args.command {
            None => c == (ModelsCommand::List { verbose: args.verbose }),
            Some(x) => c == x,
        },
{
    match args.command {
        None => ModelsCommand::List { verbose: args.verbose },
        Some(c) => c,
    }
}

// ---------------------------------------------------------------------
// Alias names and rows
// ---------------------------------------------------------------------

pub open spec fn alias_empty_msg() -> Seq<char> {
    "alias cannot be empty"@
}

pub open spec fn alias_bad_msg(a: Seq<char>) -> Seq<char> {
    "alias must be alphanumeric / '-' / '_': "@ + a
}

pub open spec fn alias_name_spec(a: Seq<char>) -> Result<(), ErrView> {
    if a.len() == 0 {
        Err(ErrView::User(alias_empty_msg()))
    } else if !alias_strict_ok(a) {
        Err(ErrView::User(alias_bad_msg(a)))
    } else {
        Ok(())
    }
}

/// Aliases are ASCII alphanumeric, `-` and `_`.
pub fn validate_alias(alias: &str) -> (r: Result<(), A2aError>)
    ensures
        match alias_name_spec(alias@) {
            Ok(()) => r is Ok,
            Err(e) => r matches Err(x) && x@ == e,
        },
{
    if alias.unicode_len() == 0 {
        return Err(user_err(String::from_str("alias cannot be empty")));
    }
    if !crate::runner::validate_alias_strict(alias) {
        let mut m = String::from_str("alias must be alphanumeric / '-' / '_': ");
        m.append(alias);
        return Err(user_err(m));
    }
    Ok(())
}

pub open spec fn model_required_msg() -> Seq<char> {
    "--model <cursor-model-id> is required and cannot be empty"@
}

/// `models add` refuses a bad alias, then a blank model id.
pub fn check_add(alias: &str, cursor_model: &str) -> (r: Result<(), A2aError>)
    ensures
        match alias_name_spec(alias@) {
            Err(e) => r matches Err(x) && x@ == e,
            Ok(()) => if trim_seq(cursor_model@).len() == 0 {
                r matches Err(x) && x@ == ErrView::User(model_required_msg())
            } else {
                r is Ok
            },
        },
{
    validate_alias(alias)?;
    let v = chars_of(cursor_model);
    let (a, b) = trim_at(&v, 0, v.len());
    assert(v@.subrange(0, v@.len() as int) =~= cursor_model@);
    if a == b {
        return Err(
            user_err(String::from_str("--model <cursor-model-id> is required and cannot be empty")),
        );
    }
    Ok(())
}

/// The insert time of an added alias: a forced replacement keeps the
/// existing row's time, so the first-added order does not change.
pub fn add_created_at(force: bool, existing: Option<i64>, now_ms: i64) -> (t: i64)
    ensures
        t == (if force && existing is Some {
            existing->0
        } else {
            now_ms
        }),
{
    if force {
        match existing {
            Some(t) => t,
            None => now_ms,
        }
    } else {
        now_ms
    }
}

/// The row `models add` stores; the mode defaults to `agent`.
pub fn new_alias_row(
    alias: &str,
    cursor_model: &str,
    mode: Option<String>,
    thinking_hint: Option<String>,
    description: Option<String>,
    created_at: i64,
) -> (m: ModelAlias)
    ensures
        m.alias@ == alias@,
        m.cursor_model@ == cursor_model@,
        m.default_mode@ == match mode {
            Some(x) => x@,
            None => "agent"@,
        },
        m.thinking_hint == thinking_hint,
        m.description == description,
        m.created_at == created_at,
{
    ModelAlias {
        alias: String::from_str(alias),
        cursor_model: String::from_str(cursor_model),
        default_mode: match mode {
            Some(x) => x,
            None => String::from_str("agent"),
        },
        thinking_hint,
        description,
        created_at,
    }
}

pub open spec fn already_registered_msg(a: Seq<char>) -> Seq<char> {
    "alias '"@ + a + "' is already registered. Use `a2a models set "@ + a
        + " --model <id> [...]` to update individual fields, or pass `--force` to fully replace it."@
}

pub fn already_registered(alias: &str) -> (e: A2aError)
    ensures
        e@ == ErrView::User(already_registered_msg(alias@)),
{
    let mut m = String::from_str("alias '");
    m.append(alias);
    m.append("' is already registered. Use `a2a models set ");
    m.append(alias);
    m.append(" --model <id> [...]` to update individual fields, or pass `--force` to fully replace it.");
    user_err(m)
}

pub fn registered_line(alias: &str, cursor_model: &str) -> (s: String)
    ensures
        s@ == "Registered alias '"@ + alias@ + "' (cursor_model="@ + cursor_model@
            + "). Verify with `a2a models list`."@,
{
    let mut s = String::from_str("Registered alias '");
    s.append(alias);
    s.append("' (cursor_model=");
    s.append(cursor_model);
    s.append("). Verify with `a2a models list`.");
    s
}

/// `models set --thinking-hint ""` clears the column; an absent flag
/// leaves it.
pub fn clear_if_empty(v: Option<String>) -> (r: Option<Option<String>>)
    ensures
        match v {
            None => r is None,
            Some(s) => if s@.len() == 0 {
                r == Some(None::<String>)
            } else {
                r == Some(Some(s))
            },
        },
{
    match v {
        None => None,
        Some(s) => if s.as_str().unicode_len() == 0 {
            Some(None)
        } else {
            Some(Some(s))
        },
    }
}

pub open spec fn not_registered_msg(a: Seq<char>) -> Seq<char> {
    "alias '"@ + a + "' is not registered. Use `a2a models add "@ + a + " --model <id>` to create it."@
}

pub fn not_registered(alias: &str) -> (e: A2aError)
    ensures
        e@ == ErrView::User(not_registered_msg(alias@)),
{
    let mut m = String::from_str("alias '");
    m.append(alias);
    m.append("' is not registered. Use `a2a models add ");
    m.append(alias);
    m.append(" --model <id>` to create it.");
    user_err(m)
}

pub fn not_registered_for_remove(alias: &str) -> (e: A2aError)
    ensures
        e@ == ErrView::User("alias '"@ + alias@ + "' is not registered."@),
{
    let mut m = String::from_str("alias '");
    m.append(alias);
    m.append("' is not registered.");
    user_err(m)
}

// ---------------------------------------------------------------------
// Reading a model id (display only)
// ---------------------------------------------------------------------

/// Tags read off a cursor model id such as
/// `big-model-7-thinking-xhigh` or `model-5.5-extra-high-fast`:
/// `<family>[-<size>][-thinking][-fast]`. Display only.
pub struct ModelVariant {
    pub family: String,
    pub size: Option<String>,
    pub thinking: bool,
    pub speed: Option<String>,
}

pub struct VariantView {
    pub family: Seq<char>,
    pub size: Option<Seq<char>>,
    pub thinking: bool,
    pub speed: Option<Seq<char>>,
}

impl View for ModelVariant {
    type V = VariantView;

    open spec fn view(&self) -> VariantView {
        VariantView {
            family: self.family@,
            size: opt_view(self.size),
            thinking: self.thinking,
            speed: opt_view(self.speed),
        }
    }
}

pub open spec fn is_size_word(t: Seq<char>) -> bool {
    t == "low"@ || t == "medium"@ || t == "high"@ || t == "xhigh"@ || t == "max"@
}

/// Peel `-fast`, then a size (`extra-high` or one of `low`, `medium`,
/// `high`, `xhigh`, `max`), then `-thinking`, off the end of the
/// `-`-separated id; what is left is the family.
pub open spec fn variant_spec(m: Seq<char>) -> VariantView {
    let t0 = split_char(m, '-');
    let fast = t0.len() > 0 && t0.last() == "fast"@;
    let t1 = if fast {
        t0.drop_last()
    } else {
        t0
    };
    let extra = t1.len() >= 2 && t1.last() == "high"@ && t1[t1.len() - 2] == "extra"@;
    let single = !extra && t1.len() >= 1 && is_size_word(t1.last());
    let t2 = if extra {
        t1.drop_last().drop_last()
    } else if single {
        t1.drop_last()
    } else {
        t1
    };
    let thinking = t2.len() > 0 && t2.last() == "thinking"@;
    let t3 = if thinking {
        t2.drop_last()
    } else {
        t2
    };
    VariantView {
        family: join_seq(t3, "-"@),
        size: if extra {
            Some("extra-high"@)
        } else if single {
            Some(t1.last())
        } else {
            None
        },
        thinking,
        speed: if fast {
            Some("fast"@)
        } else {
            None
        },
    }
}

/// The `-`-separated pieces of `m` once a trailing `fast` is set aside.
pub open spec fn pieces_before_speed(m: Seq<char>) -> Seq<Seq<char>> {
    let t0 = split_char(m, '-');
    if t0.len() > 0 && t0.last() == "fast"@ {
        t0.drop_last()
    } else {
        t0
    }
}

/// How the tags are read, piece by piece: a last piece `fast` is the
/// speed; before it, a last `extra`, `high` pair is the size
/// `extra-high`, and otherwise a last piece `low`, `medium`, `high`,
/// `xhigh` or `max` is that size; any other last piece leaves the size
/// unset and is kept in the family (or is `thinking`).
pub proof fn law_variant_tags(m: Seq<char>)
    ensures
        (variant_spec(m).speed == Some("fast"@)) <==> (split_char(m, '-').len() > 0 && split_char(
            m,
            '-',
        ).last() == "fast"@),
        ({
            let t = pieces_before_speed(m);
            let w = if t.len() > 0 {
                t.last()
            } else {
                seq![]
            };
            let extra = t.len() >= 2 && w == "high"@ && t[t.len() - 2] == "extra"@;
            &&& extra ==> variant_spec(m).size == Some("extra-high"@)
            &&& !extra && t.len() > 0 && (w == "low"@ || w == "medium"@ || w == "high"@ || w
                == "xhigh"@ || w == "max"@) ==> variant_spec(m).size == Some(w)
            &&& !extra && !(t.len() > 0 && (w == "low"@ || w == "medium"@ || w == "high"@ || w
                == "xhigh"@ || w == "max"@)) ==> variant_spec(m).size is None
        }),
{
}

/// The id put back together from its tags:
/// `<family>[-thinking][-<size>][-fast]`.
pub open spec fn rebuild_id(v: VariantView) -> Seq<char> {
    v.family + (if v.thinking {
        "-thinking"@
    } else {
        seq![]
    }) + (match v.size {
        Some(sz) => seq!['-'] + sz,
        None => seq![],
    }) + (if v.speed is Some {
        "-fast"@
    } else {
        seq![]
    })
}

/// Reading the tags off an id loses nothing: when a family remains, the
/// family, `thinking`, the size and `fast` rebuild the id exactly. The
/// speed is `fast` or absent, and the size is one of `low`, `medium`,
/// `high`, `xhigh`, `max`, `extra-high` or absent.
pub proof fn law_variant_round_trip(m: Seq<char>)
    ensures
        variant_spec(m).speed is None || variant_spec(m).speed == Some("fast"@),
        variant_spec(m).size matches Some(sz) ==> (is_size_word(sz) || sz == "extra-high"@),
        variant_spec(m).family.len() > 0 ==> rebuild_id(variant_spec(m)) == m,
{
    let v = variant_spec(m);
    let sep: Seq<char> = seq!['-'];
    crate::text::lemma_split_join(m, '-');
    let t0 = split_char(m, '-');
    let fast = t0.len() > 0 && t0.last() == "fast"@;
    let t1 = if fast { t0.drop_last() } else { t0 };
    let extra = t1.len() >= 2 && t1.last() == "high"@ && t1[t1.len() - 2] == "extra"@;
    let single = !extra && t1.len() >= 1 && is_size_word(t1.last());
    let t2 = if extra {
        t1.drop_last().drop_last()
    } else if single {
        t1.drop_last()
    } else {
        t1
    };
    let thinking = t2.len() > 0 && t2.last() == "thinking"@;
    let t3 = if thinking { t2.drop_last() } else { t2 };
    assert(v.family == join_seq(t3, "-"@));
    if v.family.len() > 0 {
        reveal_strlit("-");
        reveal_strlit("-thinking");
        reveal_strlit("thinking");
        reveal_strlit("-fast");
        reveal_strlit("fast");
        reveal_strlit("extra");
        reveal_strlit("high");
        reveal_strlit("extra-high");
        assert("-"@ =~= sep);
        assert(t3.len() >= 1);
        let a = v.family + (if thinking { "-thinking"@ } else { seq![] });
        assert(a == join_seq(t2, sep)) by {
            if thinking {
                assert(join_seq(t2, sep) == join_seq(t2.drop_last(), sep) + sep + t2.last());
                assert("-thinking"@ =~= sep + "thinking"@);
                assert(v.family + "-thinking"@ =~= join_seq(t3, sep) + sep + "thinking"@);
            }
        }
        let b = a + (match v.size {
            Some(sz) => seq!['-'] + sz,
            None => seq![],
        });
        assert(b == join_seq(t1, sep)) by {
            if extra {
                let u = t1.drop_last();
                assert(join_seq(t1, sep) == join_seq(u, sep) + sep + t1.last());
                assert(u.last() == t1[t1.len() - 2]);
                assert(join_seq(u, sep) == join_seq(u.drop_last(), sep) + sep + u.last());
                assert("extra-high"@ =~= "extra"@ + sep + "high"@);
                assert(b =~= join_seq(t2, sep) + sep + "extra"@ + sep + "high"@);
            } else if single {
                assert(join_seq(t1, sep) == join_seq(t1.drop_last(), sep) + sep + t1.last());
                assert(b =~= join_seq(t2, sep) + sep + t1.last());
            }
        }
        assert(rebuild_id(v) == join_seq(t0, sep)) by {
            if fast {
                assert(join_seq(t0, sep) == join_seq(t0.drop_last(), sep) + sep + t0.last());
                assert("-fast"@ =~= sep + "fast"@);
                assert(rebuild_id(v) =~= join_seq(t1, sep) + sep + "fast"@);
            } else {
                assert(rebuild_id(v) =~= b);
            }
        }
    }
}

fn last_is(v: &Vec<String>, t: &str) -> (b: bool)
    ensures
        b == (v@.len() > 0 && v@.last()@ == t@),
{
    if v.len() == 0 {
        false
    } else {
        str_eq(v[v.len() - 1].as_str(), t)
    }
}

fn pop_string(v: &mut Vec<String>) -> (r: String)
    requires
        old(v)@.len() > 0,
    ensures
        strings_view(final(v)@) == strings_view(old(v)@).drop_last(),
        r@ == old(v)@.last()@,
{
    let r = v.pop().unwrap();
    assert(strings_view(v@) =~= strings_view(old(v)@).drop_last());
    r
}

impl ModelVariant {
    pub fn parse(cursor_model: &str) -> (v: ModelVariant)
        ensures
            v@ == variant_spec(cursor_model@),
            v@.family.len() > 0 ==> rebuild_id(v@) == cursor_model@,
    {
        proof {
            law_variant_round_trip(cursor_model@);
            reveal_strlit("fast");
            reveal_strlit("high");
            reveal_strlit("extra");
            reveal_strlit("low");
            reveal_strlit("medium");
            reveal_strlit("xhigh");
            reveal_strlit("max");
            reveal_strlit("thinking");
        }
        let mut tokens = split_by(cursor_model, '-');
        let ghost t0 = strings_view(tokens@);
        let fast = last_is(&tokens, "fast");
        if fast {
            pop_string(&mut tokens);
        }
        let ghost t1 = strings_view(tokens@);
        let n = tokens.len();
        let extra = n >= 2 && str_eq(tokens[n - 1].as_str(), "high") && str_eq(
            tokens[n - 2].as_str(),
            "extra",
        );
        let single = !extra && n >= 1 && (str_eq(tokens[n - 1].as_str(), "low") || str_eq(
            tokens[n - 1].as_str(),
            "medium",
        ) || str_eq(tokens[n - 1].as_str(), "high") || str_eq(tokens[n - 1].as_str(), "xhigh")
            || str_eq(tokens[n - 1].as_str(), "max"));
        proof {
            if n >= 1 {
                assert(t1.last() == tokens@[n - 1]@);
            }
            if n >= 2 {
                assert(t1[t1.len() - 2] == tokens@[n - 2]@);
            }
        }
        let size = if extra {
            pop_string(&mut tokens);
            pop_string(&mut tokens);
            Some(String::from_str("extra-high"))
        } else if single {
            Some(pop_string(&mut tokens))
        } else {
            None
        };
        let thinking = last_is(&tokens, "thinking");
        if thinking {
            pop_string(&mut tokens);
        }
        let family = join_strings(&tokens, "-");
        ModelVariant { family, size, thinking, speed: if fast { Some(String::from_str("fast")) } else { None } }
    }

    pub fn render(&self) -> (s: String)
        ensures
            s@ == render_spec(self@),
    {
        let mut bits: Vec<String> = Vec::new();
        if self.family.as_str().unicode_len() != 0 {
            push_string(&mut bits, self.family.as_str());
        }
        match &self.size {
            Some(sz) => {
                let mut b = String::from_str("size=");
                b.append(sz.as_str());
                push_string(&mut bits, b.as_str());
            },
            None => {},
        }
        if self.thinking {
            push_string(&mut bits, "thinking");
        }
        match &self.speed {
            Some(sp) => {
                let mut b = String::from_str("speed=");
                b.append(sp.as_str());
                push_string(&mut bits, b.as_str());
            },
            None => {},
        }
        proof {
            let v = self@;
            let b1: Seq<Seq<char>> = if v.family.len() != 0 {
                seq![v.family]
            } else {
                seq![]
            };
            let b2: Seq<Seq<char>> = match v.size {
                Some(sz) => seq!["size="@ + sz],
                None => seq![],
            };
            let b3: Seq<Seq<char>> = if v.thinking {
                seq!["thinking"@]
            } else {
                seq![]
            };
            let b4: Seq<Seq<char>> = match v.speed {
                Some(sp) => seq!["speed="@ + sp],
                None => seq![],
            };
            assert(strings_view(bits@) =~= b1 + b2 + b3 + b4);
        }
        join_strings(&bits, " / ")
    }
}

/// `family / size=… / thinking / speed=…`, each part only when present.
pub open spec fn render_spec(v: VariantView) -> Seq<char> {
    join_seq(
        (if v.family.len() != 0 {
            seq![v.family]
        } else {
            seq![]
        }) + (match v.size {
            Some(sz) => seq!["size="@ + sz],
            None => seq![],
        }) + (if v.thinking {
            seq!["thinking"@]
        } else {
            seq![]
        }) + (match v.speed {
            Some(sp) => seq!["speed="@ + sp],
            None => seq![],
        }),
        " / "@,
    )
}

// ---------------------------------------------------------------------
// `models list`
// ---------------------------------------------------------------------

/// The description shown for an alias: its own, else the reading of
/// its model id.
pub open spec fn alias_desc(m: ModelAlias) -> Seq<char> {
    match m.description {
        Some(d) => d@,
        None => render_spec(variant_spec(m.cursor_model@)),
    }
}

/// The lines of one alias; the first-added alias (`idx` 0) is marked
/// `*`, since `ask` without `--models` runs it.
pub open spec fn alias_block(idx: int, m: ModelAlias, verbose: bool) -> Seq<Seq<char>> {
    let mark = if idx == 0 {
        "*"@
    } else {
        " "@
    };
    let desc = alias_desc(m);
    if verbose {
        seq![
            mark + " "@ + m.alias@,
            "    cursor_model:   "@ + m.cursor_model@,
            "    parsed:         "@ + desc,
            "    default_mode:   "@ + m.default_mode@,
        ] + match m.thinking_hint {
            Some(h) => seq!["    thinking_hint:  "@ + h@],
            None => seq![],
        }
    } else {
        seq![mark + " "@ + pad_right(m.alias@, 14) + "  "@ + m.cursor_model@ + "  ["@ + m.default_mode@ + "]"@]
            + if desc.len() != 0 {
            seq!["                  "@ + desc]
        } else {
            seq![]
        }
    }
}

pub open spec fn alias_blocks(ms: Seq<ModelAlias>, verbose: bool) -> Seq<Seq<char>>
    decreases ms.len(),
{
    if ms.len() == 0 {
        seq![]
    } else {
        alias_blocks(ms.drop_last(), verbose) + alias_block(ms.len() - 1, ms.last(), verbose)
    }
}

/// The output of `models list` for the aliases in first-added order.
pub open spec fn models_list_spec(ms: Seq<ModelAlias>, verbose: bool) -> Seq<Seq<char>> {
    let head = seq![
        "Configured model aliases (* = default for `a2a ask` without `--models`, total "@ + decimal(
            ms.len(),
        ) + "):"@,
    ];
    if ms.len() == 0 {
        head.push("  (none registered; run `a2a models add <alias> --model <cursor-id>`)"@)
    } else {
        head + alias_blocks(ms, verbose) + seq![
            seq![],
            "(`a2a ask` without `--models` runs only '"@ + ms[0].alias@
                + "'. Pass `--models a,b,c` for any other set.)"@,
        ]
    }
}

fn alias_block_lines(idx: usize, m: &ModelAlias, verbose: bool) -> (r: Vec<String>)
    ensures
        strings_view(r@) == alias_block(idx as int, *m, verbose),
{
    let mut r: Vec<String> = Vec::new();
    let mark = if idx == 0 { "*" } else { " " };
    let desc = match &m.description {
        Some(d) => d.clone(),
        None => ModelVariant::parse(m.cursor_model.as_str()).render(),
    };
    if verbose {
        let mut l1 = String::from_str(mark);
        l1.append(" ");
        l1.append(m.alias.as_str());
        push_string(&mut r, l1.as_str());
        let mut l2 = String::from_str("    cursor_model:   ");
        l2.append(m.cursor_model.as_str());
        push_string(&mut r, l2.as_str());
        let mut l3 = String::from_str("    parsed:         ");
        l3.append(desc.as_str());
        push_string(&mut r, l3.as_str());
        let mut l4 = String::from_str("    default_mode:   ");
        l4.append(m.default_mode.as_str());
        push_string(&mut r, l4.as_str());
        match &m.thinking_hint {
            Some(h) => {
                let mut l5 = String::from_str("    thinking_hint:  ");
                l5.append(h.as_str());
                push_string(&mut r, l5.as_str());
            },
            None => {},
        }
    } else {
        let mut l1 = String::from_str(mark);
        l1.append(" ");
        push_padded(&mut l1, m.alias.as_str(), 14);
        l1.append("  ");
        l1.append(m.cursor_model.as_str());
        l1.append("  [");
        l1.append(m.default_mode.as_str());
        l1.append("]");
        push_string(&mut r, l1.as_str());
        if desc.as_str().unicode_len() != 0 {
            let mut l2 = String::from_str("                  ");
            l2.append(desc.as_str());
            push_string(&mut r, l2.as_str());
        }
    }
    proof {
        assert(strings_view(r@) =~= alias_block(idx as int, *m, verbose));
    }
    r
}

pub fn models_list_lines(aliases: &Vec<ModelAlias>, verbose: bool) -> (r: Vec<String>)
    ensures
        strings_view(r@) == models_list_spec(aliases@, verbose),
{
    let mut r: Vec<String> = Vec::new();
    let mut h = String::from_str(
        "Configured model aliases (* = default for `a2a ask` without `--models`, total ",
    );
    push_decimal(&mut h, aliases.len() as u64);
    h.append("):");
    push_string(&mut r, h.as_str());
    let ghost head = strings_view(r@);
    if aliases.len() == 0 {
        push_string(&mut r, "  (none registered; run `a2a models add <alias> --model <cursor-id>`)");
        assert(strings_view(r@) =~= models_list_spec(aliases@, verbose));
        return r;
    }
    let mut i: usize = 0;
    while i < aliases.len()
        invariant
            i <= aliases@.len(),
            strings_view(r@) == head + alias_blocks(aliases@.take(i as int), verbose),
        decreases aliases@.len() - i,
    {
        let block = alias_block_lines(i, &aliases[i], verbose);
        let ghost before = strings_view(r@);
        let mut k: usize = 0;
        while k < block.len()
            invariant
                k <= block@.len(),
                strings_view(r@) == before + strings_view(block@).take(k as int),
            decreases block@.len() - k,
        {
            push_string(&mut r, block[k].as_str());
            assert(strings_view(block@).take(k + 1) =~= strings_view(block@).take(k as int).push(
                block@[k as int]@,
            ));
            assert(strings_view(r@) =~= before + strings_view(block@).take(k + 1));
            k += 1;
        }
        proof {
            assert(strings_view(block@).take(block@.len() as int) =~= strings_view(block@));
            let t = aliases@.take(i + 1);
            assert(t.drop_last() =~= aliases@.take(i as int));
            assert(t.last() == aliases@[i as int]);
            assert(strings_view(r@) =~= head + alias_blocks(t, verbose));
        }
        i += 1;
    }
    assert(aliases@.take(aliases@.len() as int) =~= aliases@);
    let ghost mid = strings_view(r@);
    proof {
        reveal_strlit("");
    }
    push_string(&mut r, "");
    let mut f = String::from_str("(`a2a ask` without `--models` runs only '");
    f.append(aliases[0].alias.as_str());
    f.append("'. Pass `--models a,b,c` for any other set.)");
    push_string(&mut r, f.as_str());
    proof {
        assert(""@ =~= Seq::<char>::empty());
        assert(head =~= seq![
            "Configured model aliases (* = default for `a2a ask` without `--models`, total "@
                + decimal(aliases@.len()) + "):"@,
        ]);
        assert(strings_view(r@) =~= mid + seq![
            seq![],
            "(`a2a ask` without `--models` runs only '"@ + aliases@[0].alias@
                + "'. Pass `--models a,b,c` for any other set.)"@,
        ]);
    }
    assert(strings_view(r@) =~= models_list_spec(aliases@, verbose));
    r
}

// ---------------------------------------------------------------------
// `models available`
// ---------------------------------------------------------------------

/// The profile whose key queries the catalog: the one named, else the
/// stored default (as stored), else a profile named `default`, else the
/// earliest registered, else the name `default`.
pub open spec fn available_profile_spec(
    explicit: Option<Seq<char>>,
    meta_default: Option<Seq<char>>,
    ps: Seq<Profile>,
) -> Seq<char> {
    match explicit {
        Some(p) => p,
        None => match meta_default {
            Some(d) => d,
            None => if profile_names(ps).contains("default"@) {
                "default"@
            } else if ps.len() > 0 {
                ps[earliest_index(ps)].name@
            } else {
                "default"@
            },
        },
    }
}

pub fn available_profile(explicit: Option<&str>, meta_default: Option<String>, profiles: &Vec<Profile>) -> (r: String)
    ensures
        r@ == available_profile_spec(
            match explicit {
                Some(p) => Some(p@),
                None => None,
            },
            opt_view(meta_default),
            profiles@,
        ),
{
    match explicit {
        Some(p) => String::from_str(p),
        None => match meta_default {
            Some(d) => d,
            None => {
                let mut names: Vec<String> = Vec::new();
                let mut i: usize = 0;
                while i < profiles.len()
                    invariant
                        i <= profiles@.len(),
                        strings_view(names@) == profile_names(profiles@.take(i as int)),
                    decreases profiles@.len() - i,
                {
                    push_string(&mut names, profiles[i].name.as_str());
                    assert(profile_names(profiles@.take(i + 1)) =~= profile_names(
                        profiles@.take(i as int),
                    ).push(profiles@[i as int].name@));
                    i += 1;
                }
                assert(profiles@.take(profiles@.len() as int) =~= profiles@);
                proof {
                    reveal_strlit("default");
                }
                if contains_str(&names, "default") {
                    String::from_str("default")
                } else if profiles.len() > 0 {
                    match crate::runner::resolve_default_profile(None, profiles) {
                        Ok(n) => n,
                        Err(_) => String::from_str("default"),
                    }
                } else {
                    String::from_str("default")
                }
            },
        },
    }
}

/// One catalog entry read from a line of `cursor-agent --list-models`:
/// `<id> - <description>`, both trimmed. Blank lines, the `Available
/// models` title and lines without ` - ` give none.
pub open spec fn catalog_entry(line: Seq<char>) -> Option<(Seq<char>, Seq<char>)> {
    let t = trim_seq(line);
    if t.len() == 0 || eq_ignore_ascii_case(t, "Available models"@) {
        None
    } else {
        match find_seq(t, " - "@) {
            Some(i) => Some((trim_seq(t.take(i)), trim_seq(t.skip(i + 3)))),
            None => None,
        }
    }
}

pub open spec fn catalog_spec(lines: Seq<Seq<char>>) -> Seq<(Seq<char>, Seq<char>)>
    decreases lines.len(),
{
    if lines.len() == 0 {
        seq![]
    } else {
        match catalog_entry(lines.last()) {
            Some(e) => catalog_spec(lines.drop_last()).push(e),
            None => catalog_spec(lines.drop_last()),
        }
    }
}

pub open spec fn pairs_view(v: Seq<(String, String)>) -> Seq<(Seq<char>, Seq<char>)> {
    v.map_values(|p: (String, String)| (p.0@, p.1@))
}

fn catalog_line(line: &str) -> (r: Option<(String, String)>)
    ensures
        match catalog_entry(line@) {
            Some(e) => r matches Some(p) && p.0@ == e.0 && p.1@ == e.1,
            None => r is None,
        },
{
    let v = chars_of(line);
    let (a, b) = trim_at(&v, 0, v.len());
    assert(v@.subrange(0, v@.len() as int) =~= line@);
    let ghost t = v@.subrange(a as int, b as int);
    if a == b {
        return None;
    }
    let t_str = string_of(&v, a, b);
    proof {
        reveal_strlit("Available models");
    }
    if str_eq_ignore_ascii_case(t_str.as_str(), "Available models") {
        return None;
    }
    let sep = chars_of(" - ");
    proof {
        reveal_strlit(" - ");
    }
    match find_range(&v, a, b, &sep) {
        Some(i) => {
            proof {
                lemma_find_some(t, sep@);
            }
            let (x1, y1) = trim_at(&v, a, a + i);
            let (x2, y2) = trim_at(&v, a + i + 3, b);
            assert(v@.subrange(a as int, a + i) =~= t.take(i as int));
            assert(v@.subrange(a + i + 3, b as int) =~= t.skip(i + 3));
            Some((string_of(&v, x1, y1), string_of(&v, x2, y2)))
        },
        None => None,
    }
}

/// The catalog in the output of `cursor-agent --list-models`.
pub fn parse_list_models(raw: &str) -> (r: Vec<(String, String)>)
    ensures
        pairs_view(r@) == catalog_spec(split_char(raw@, '\n')),
{
    let lines = split_by(raw, '\n');
    let ghost ls = strings_view(lines@);
    let mut out: Vec<(String, String)> = Vec::new();
    let mut i: usize = 0;
    while i < lines.len()
        invariant
            i <= lines@.len(),
            ls == strings_view(lines@),
            ls == split_char(raw@, '\n'),
            pairs_view(out@) == catalog_spec(ls.take(i as int)),
        decreases lines@.len() - i,
    {
        let e = catalog_line(lines[i].as_str());
        proof {
            let t = ls.take(i + 1);
            assert(t.drop_last() =~= ls.take(i as int));
            assert(t.last() == lines@[i as int]@);
        }
        match e {
            Some(p) => {
                let ghost before = pairs_view(out@);
                out.push(p);
                assert(pairs_view(out@) =~= before.push((out@.last().0@, out@.last().1@)));
            },
            None => {},
        }
        i += 1;
    }
    assert(ls.take(lines@.len() as int) =~= ls);
    out
}

/// The lines of `models available` after the query: the count, the
/// legend and one row per model, `@` marking ids an alias uses.
pub open spec fn available_lines_spec(
    entries: Seq<(Seq<char>, Seq<char>)>,
    referenced: Seq<Seq<char>>,
) -> Seq<Seq<char>> {
    seq![
        "Found "@ + decimal(entries.len()) + " model(s) on this account."@,
        "(@ = referenced by an a2a alias on this machine)"@,
        seq![],
    ] + Seq::new(
        entries.len(),
        |i: int|
            (if referenced.contains(entries[i].0) {
                "@"@
            } else {
                " "@
            }) + " "@ + pad_right(entries[i].0, 48) + "  "@ + entries[i].1,
    )
}

pub fn available_lines(entries: &Vec<(String, String)>, referenced: &Vec<String>) -> (r: Vec<String>)
    ensures
        strings_view(r@) == available_lines_spec(pairs_view(entries@), strings_view(referenced@)),
{
    let ghost ev = pairs_view(entries@);
    let ghost rv = strings_view(referenced@);
    let ghost rows = Seq::new(
        ev.len(),
        |i: int|
            (if rv.contains(ev[i].0) {
                "@"@
            } else {
                " "@
            }) + " "@ + pad_right(ev[i].0, 48) + "  "@ + ev[i].1,
    );
    let mut r: Vec<String> = Vec::new();
    let mut l1 = String::from_str("Found ");
    push_decimal(&mut l1, entries.len() as u64);
    l1.append(" model(s) on this account.");
    push_string(&mut r, l1.as_str());
    push_string(&mut r, "(@ = referenced by an a2a alias on this machine)");
    proof {
        reveal_strlit("");
    }
    push_string(&mut r, "");
    let ghost head = strings_view(r@);
    assert(""@ =~= Seq::<char>::empty());
    let mut i: usize = 0;
    while i < entries.len()
        invariant
            i <= entries@.len(),
            ev == pairs_view(entries@),
            rv == strings_view(referenced@),
            rows.len() == ev.len(),
            forall|k: int| 0 <= k < ev.len() ==> #[trigger] rows[k] == (if rv.contains(ev[k].0) {
                "@"@
            } else {
                " "@
            }) + " "@ + pad_right(ev[k].0, 48) + "  "@ + ev[k].1,
            strings_view(r@) == head + rows.take(i as int),
        decreases entries@.len() - i,
    {
        let id = entries[i].0.as_str();
        let desc = entries[i].1.as_str();
        let mut l = if contains_str(referenced, id) {
            String::from_str("@")
        } else {
            String::from_str(" ")
        };
        l.append(" ");
        push_padded(&mut l, id, 48);
        l.append("  ");
        l.append(desc);
        proof {
            assert(ev[i as int].0 == id@);
            assert(ev[i as int].1 == desc@);
            assert(l@ == rows[i as int]);
        }
        push_string(&mut r, l.as_str());
        assert(rows.take(i + 1) =~= rows.take(i as int).push(rows[i as int]));
        assert(strings_view(r@) =~= head + rows.take(i + 1));
        i += 1;
    }
    assert(rows.take(entries@.len() as int) =~= rows);
    proof {
        assert(head =~= seq![
            "Found "@ + decimal(ev.len()) + " model(s) on this account."@,
            "(@ = referenced by an a2a alias on this machine)"@,
            seq![],
        ]);
    }
    assert(strings_view(r@) =~= available_lines_spec(ev, rv));
    r
}

} // verus!
