//! The FX provider: installed plugins from the DAW's FX database.

use vstd::prelude::*;
use crate::item::{
    action_command, copy_items, find_action, item_views, ActionModifier, ActivationResult, Item,
    ItemAction, ItemActionView, ItemView, ProviderConfig, ProviderConfigView,
};
use crate::text::{
    first_occurrence_from, is_white_space, last_index_before, lemma_first_occurrence_found, lemma_first_occurrence_is,
    lemma_first_occurrence_minimal, lemma_last_index_after, lemma_last_index_bounds,
    lemma_last_index_is, lemma_slice_occurs, lemma_trim_end_char_prefix, lemma_trimmed_clean,
    lemma_trimmed_push_white_space, lemma_trimmed_range, occurs_at, trim_is_idempotent,
    chars_of, concat, concat3, contains, contains_text, find_last_char, find_text, last_index,
    lemma_split_three_parts, lowercase, owned, replace, replace_char, split_in_three, split_once,
    split_three, string_of_range, to_lowercase, trim, trim_end_char, trim_end_matches, trimmed,
};

verus! {

broadcast use vstd::string::group_string_axioms;

/// An installed plugin as the DAW reports it.
#[derive(Clone, Debug, PartialEq, Eq)]
pub struct InstalledFx {
    pub ident: String,
    pub name: String,
}

/// The format, name and developer read from a plugin identifier such as
/// `"VST3: Pro-Q 3 (FabFilter)"`.
pub open spec fn fx_ident_parts(ident: Seq<char>) -> (Seq<char>, Seq<char>, Seq<char>) {
    let (format, rest) = match split_once(ident, ": "@) {
        Some(parts) => parts,
        None => ("Unknown"@, ident),
    };
    let (name, developer) = name_and_developer(rest);
    (format, name, developer)
}

/// The name and developer read from the part of an identifier after its
/// format: the developer follows the last `'('`, without its closing
/// parentheses; both are trimmed. Without a `'('`, all of it is the name.
#[verifier::opaque]
pub open spec fn name_and_developer(rest: Seq<char>) -> (Seq<char>, Seq<char>) {
    let paren = last_index(rest, '(');
    if paren < 0 {
        (rest, Seq::empty())
    } else {
        (trimmed(rest.take(paren)), trimmed(trim_end_char(rest.skip(paren + 1), ')')))
    }
}

/// Whether a lowercased identifier names an instrument rather than an effect.
pub open spec fn lowercase_names_instrument(lower: Seq<char>) -> bool {
    contains_text(lower, "instrument"@) || contains_text(lower, "synth"@) || contains_text(lower, "vsti"@)
}

/// Whether the identifier names an instrument rather than an effect.
pub open spec fn is_instrument_ident(ident: Seq<char>) -> bool {
    lowercase_names_instrument(lowercase(ident))
}

/// The tag for a plugin format.
pub open spec fn format_tag(format: Seq<char>) -> Seq<char> {
    lowercase_format_tag(lowercase(format))
}

/// The tag for a lowercased plugin format.
pub open spec fn lowercase_format_tag(f: Seq<char>) -> Seq<char> {
    if f == "vst"@ || f == "vst2"@ {
        "audio/effects/plugin/vst"@
    } else if f == "vst3"@ {
        "audio/effects/plugin/vst3"@
    } else if f == "clap"@ {
        "audio/effects/plugin/clap"@
    } else if f == "js"@ || f == "jsfx"@ {
        "audio/effects/plugin/jsfx"@
    } else if f == "au"@ {
        "audio/effects/plugin/au"@
    } else {
        "audio/effects/plugin"@
    }
}

/// The item id of a plugin: `fx-`, then the identifier with spaces and
/// colons turned into dashes, lowercased.
pub open spec fn fx_item_id(ident: Seq<char>) -> Seq<char> {
    "fx-"@ + lowercase(replace_char(replace_char(ident, ' ', '-'), ':', '-'))
}

/// The launcher item that lists an installed plugin.
pub open spec fn fx_item(ident: Seq<char>, name: Seq<char>) -> ItemView {
    let (format, _n, developer) = fx_ident_parts(ident);
    let base_tag = if is_instrument_ident(ident) { "audio/instruments"@ } else { "audio/effects"@ };
    ItemView {
        id: fx_item_id(ident),
        label: name,
        provider: "fx"@,
        sub: developer + " ("@ + format + ")"@,
        icon: "F"@,
        tags: seq![base_tag, format_tag(format)],
        search_fields: seq![name, developer, format],
        actions: seq![
            ItemActionView {
                name: "Add to track"@,
                command: "daw:fx-add:"@ + ident,
                modifier: ActionModifier::Plain,
                keep_open: false,
            },
            ItemActionView {
                name: "Add to new track"@,
                command: "daw:fx-new-track:"@ + ident,
                modifier: ActionModifier::Shift,
                keep_open: false,
            },
            ItemActionView {
                name: "Replace chain"@,
                command: "daw:fx-replace:"@ + ident,
                modifier: ActionModifier::CtrlShift,
                keep_open: false,
            },
        ],
    }
}

/// Splits a plugin identifier into its format, name and developer.
///
/// The format is the text before the first `": "` (`"Unknown"` when there
/// is none). In the rest, the developer is what follows the last `'('`,
/// without its closing parentheses; both it and the name before it are trimmed.
pub fn parse_fx_ident(ident: &str) -> (r: (String, String, String))
    ensures
        (r.0@, r.1@, r.2@) == fx_ident_parts(ident@),
        !contains_text(r.0@, ": "@),
        r.0@ == "Unknown"@ || (r.0@ + ": "@).is_prefix_of(ident@),
        contains_text(ident@, r.1@),
        contains_text(ident@, r.2@),
        !r.2@.contains('('),
        trimmed(r.2@) == r.2@,
{
    proof {
        fx_ident_parts_facts(ident@);
        reveal(name_and_developer);
    }
    let v = chars_of(ident);
    let pat = chars_of(": ");
    proof {
        reveal_strlit(": ");
    }
    let (format, rest) = match find_text(&v, &pat) {
        Some(i) => {
            let f = string_of_range(&v, 0, i);
            let r = string_of_range(&v, i + 2, v.len());
            assert(v@.subrange(0, i as int) == v@.take(i as int));
            assert(v@.subrange(i + 2, v@.len() as int) == v@.skip(i + 2));
            (f, r)
        },
        None => (owned("Unknown"), owned(ident)),
    };
    let rv = chars_of(rest.as_str());
    match find_last_char(&rv, '(') {
        Some(p) => {
            let before = string_of_range(&rv, 0, p);
            let after = string_of_range(&rv, p + 1, rv.len());
            assert(rv@.subrange(0, p as int) == rv@.take(p as int));
            assert(rv@.subrange(p + 1, rv@.len() as int) == rv@.skip(p + 1));
            let name = trim(before.as_str());
            let dev = trim(trim_end_matches(after.as_str(), ')').as_str());
            (format, name, dev)
        },
        None => (format, rest, String::new()),
    }
}

/// Whether `s` is exactly `lit`.
fn text_is(s: &String, lit: &str) -> (r: bool)
    ensures
        r == (s@ == lit@),
{
    *s == owned(lit)
}

/// Whether a lowercased identifier names an instrument: it holds
/// `instrument`, `synth` or `vsti`.
pub fn names_instrument(lower: &str) -> (r: bool)
    ensures
        r == lowercase_names_instrument(lower@),
{
    contains(lower, "instrument") || contains(lower, "synth") || contains(lower, "vsti")
}

/// The tag for a lowercased plugin format.
pub fn format_tag_for(lower_format: &str) -> (t: String)
    ensures
        t@ == lowercase_format_tag(lower_format@),
{
    let f = owned(lower_format);
    if text_is(&f, "vst") || text_is(&f, "vst2") {
        owned("audio/effects/plugin/vst")
    } else if text_is(&f, "vst3") {
        owned("audio/effects/plugin/vst3")
    } else if text_is(&f, "clap") {
        owned("audio/effects/plugin/clap")
    } else if text_is(&f, "js") || text_is(&f, "jsfx") {
        owned("audio/effects/plugin/jsfx")
    } else if text_is(&f, "au") {
        owned("audio/effects/plugin/au")
    } else {
        owned("audio/effects/plugin")
    }
}

/// Builds the launcher item for an installed plugin.
pub fn fx_item_for(fx: &InstalledFx) -> (item: Item)
    ensures
        item@ == fx_item(fx.ident@, fx.name@),
{
    let (format, _name, developer) = parse_fx_ident(fx.ident.as_str());
    let lower = to_lowercase(fx.ident.as_str());
    let base_tag = if names_instrument(lower.as_str()) {
        owned("audio/instruments")
    } else {
        owned("audio/effects")
    };
    let format_tag = format_tag_for(to_lowercase(format.as_str()).as_str());
    let dashed = replace(replace(fx.ident.as_str(), ' ', '-').as_str(), ':', '-');
    let id = concat("fx-", to_lowercase(dashed.as_str()).as_str());
    let sub = concat3(developer.as_str(), " (", concat(format.as_str(), ")").as_str());
    let ident = fx.ident.as_str();
    let actions = vec![
        ItemAction::new("Add to track", concat("daw:fx-add:", ident), ActionModifier::Plain, false),
        ItemAction::new(
            "Add to new track",
            concat("daw:fx-new-track:", ident),
            ActionModifier::Shift,
            false,
        ),
        ItemAction::new("Replace chain", concat("daw:fx-replace:", ident), ActionModifier::CtrlShift, false),
    ];
    let item = Item {
        id,
        label: fx.name.clone(),
        provider: owned("fx"),
        sub,
        icon: owned("F"),
        tags: vec![base_tag, format_tag],
        search_fields: vec![fx.name.clone(), developer, format],
        actions,
    };
    assert(item@.id == fx_item(fx.ident@, fx.name@).id);
    assert(item@.sub =~= fx_item(fx.ident@, fx.name@).sub);
    assert(item@.tags =~= fx_item(fx.ident@, fx.name@).tags);
    assert(item@.search_fields =~= fx_item(fx.ident@, fx.name@).search_fields);
    assert(item@.actions =~= fx_item(fx.ident@, fx.name@).actions);
    item
}

/// A plugin's item is labelled with the plugin's name. It is listed under
/// instruments exactly when its whole identifier
/// (format, name and developer alike), lowercased, contains `instrument`,
/// `synth` or `vsti`, and under effects otherwise. Its second tag is that of
/// its format, read from the lowercased text before the first `": "`: VST2
/// (`vst`, `vst2`), VST3, CLAP, JSFX (`js`, `jsfx`) or AU each have their own
/// tag, any other format the general plugin tag.
pub proof fn fx_item_tags(ident: Seq<char>, name: Seq<char>)
    ensures
        fx_item(ident, name).label == name,
        fx_item(ident, name).tags.len() == 2,
        fx_item(ident, name).tags[0] == (if contains_text(lowercase(ident), "instrument"@) || contains_text(
            lowercase(ident),
            "synth"@,
        ) || contains_text(lowercase(ident), "vsti"@) {
            "audio/instruments"@
        } else {
            "audio/effects"@
        }),
        match split_once(ident, ": "@) {
            Some((f, _)) => {
                let lf = lowercase(f);
                let tag = fx_item(ident, name).tags[1];
                &&& (lf == "vst"@ || lf == "vst2"@) ==> tag == "audio/effects/plugin/vst"@
                &&& lf == "vst3"@ ==> tag == "audio/effects/plugin/vst3"@
                &&& lf == "clap"@ ==> tag == "audio/effects/plugin/clap"@
                &&& (lf == "js"@ || lf == "jsfx"@) ==> tag == "audio/effects/plugin/jsfx"@
                &&& lf == "au"@ ==> tag == "audio/effects/plugin/au"@
                &&& !(lf == "vst"@ || lf == "vst2"@ || lf == "vst3"@ || lf == "clap"@ || lf == "js"@
                    || lf == "jsfx"@ || lf == "au"@) ==> tag == "audio/effects/plugin"@
            },
            None => true,
        },
{
    reveal_strlit("vst");
    reveal_strlit("vst2");
    reveal_strlit("vst3");
    reveal_strlit("clap");
    reveal_strlit("js");
    reveal_strlit("jsfx");
    reveal_strlit("au");
    assert("vst"@.len() == 3 && "vst2"@.len() == 4 && "vst3"@.len() == 4 && "js"@.len() == 2);
    assert("vst"@[0] == 'v' && "vst2"@[0] == 'v' && "vst3"@[0] == 'v' && "clap"@[0] == 'c');
    assert("js"@[0] == 'j' && "jsfx"@[0] == 'j' && "au"@[0] == 'a');
    assert("vst2"@[3] != "vst3"@[3]);
}

/// The items listing `installed`, in order.
pub open spec fn fx_items(installed: Seq<InstalledFx>) -> Seq<ItemView> {
    installed.map_values(|f: InstalledFx| fx_item(f.ident@, f.name@))
}

/// What an activation of an FX item asks the DAW to do.
#[derive(Clone, Debug, PartialEq, Eq)]
pub enum FxCommand {
    /// Add the plugin to the first selected track.
    AddToSelectedTrack { fx_ident: String },
    /// Add a track named `track_name` after the last one, then the plugin to it.
    AddToNewTrack { track_name: String, fx_ident: String },
    /// On every selected track, remove all plugins, then add this one.
    ReplaceChains { fx_ident: String },
    /// Nothing to change: the command is not one of the above.
    Nothing,
}

pub enum FxCommandView {
    AddToSelectedTrack { fx_ident: Seq<char> },
    AddToNewTrack { track_name: Seq<char>, fx_ident: Seq<char> },
    ReplaceChains { fx_ident: Seq<char> },
    Nothing,
}

impl View for FxCommand {
    type V = FxCommandView;

    open spec fn view(&self) -> FxCommandView {
        match self {
            FxCommand::AddToSelectedTrack { fx_ident } => FxCommandView::AddToSelectedTrack {
                fx_ident: fx_ident@,
            },
            FxCommand::AddToNewTrack { track_name, fx_ident } => FxCommandView::AddToNewTrack {
                track_name: track_name@,
                fx_ident: fx_ident@,
            },
            FxCommand::ReplaceChains { fx_ident } => FxCommandView::ReplaceChains {
                fx_ident: fx_ident@,
            },
            FxCommand::Nothing => FxCommandView::Nothing,
        }
    }
}

/// The command that activating `action` of `item` asks for: the action's
/// command text is `daw:<cmd>:<fx ident>`; `None` when it has fewer than
/// three parts (nothing is asked of the DAW then).
pub open spec fn fx_command(item: ItemView, action: Seq<char>) -> Option<FxCommandView> {
    match split_three(action_command(item, action), ':') {
        None => None,
        Some((_, cmd, ident)) => Some(
            if cmd == "fx-add"@ {
                FxCommandView::AddToSelectedTrack { fx_ident: ident }
            } else if cmd == "fx-new-track"@ {
                FxCommandView::AddToNewTrack { track_name: item.label, fx_ident: ident }
            } else if cmd == "fx-replace"@ {
                FxCommandView::ReplaceChains { fx_ident: ident }
            } else {
                FxCommandView::Nothing
            },
        ),
    }
}

/// Activating an FX item asks for the command its action names, on the
/// plugin it lists (whatever its identifier holds, colons included).
pub proof fn fx_item_activates_its_plugin(ident: Seq<char>, name: Seq<char>)
    ensures
        fx_command(fx_item(ident, name), "Add to track"@) == Some(
            FxCommandView::AddToSelectedTrack { fx_ident: ident },
        ),
        fx_command(fx_item(ident, name), "Add to new track"@) == Some(
            FxCommandView::AddToNewTrack { track_name: name, fx_ident: ident },
        ),
        fx_command(fx_item(ident, name), "Replace chain"@) == Some(
            FxCommandView::ReplaceChains { fx_ident: ident },
        ),
{
    let item = fx_item(ident, name);
    reveal_strlit("Add to track");
    reveal_strlit("Add to new track");
    reveal_strlit("Replace chain");
    reveal_strlit("daw");
    reveal_strlit("fx-add");
    reveal_strlit("fx-new-track");
    reveal_strlit("fx-replace");
    reveal_strlit("daw:fx-add:");
    reveal_strlit("daw:fx-new-track:");
    reveal_strlit("daw:fx-replace:");
    reveal_with_fuel(find_action, 4);
    assert(item.actions.drop_first()[0] == item.actions[1]);
    assert(item.actions.drop_first().drop_first()[0] == item.actions[2]);
    assert("Add to track"@.len() == 12 && "Add to new track"@.len() == 16 && "Replace chain"@.len() == 13);
    assert(find_action(item.actions.drop_first().drop_first(), "Replace chain"@) == Some(item.actions[2]));
    assert(find_action(item.actions.drop_first(), "Replace chain"@) == Some(item.actions[2]));
    assert(find_action(item.actions.drop_first(), "Add to new track"@) == Some(item.actions[1]));
    assert(action_command(item, "Add to track"@) == "daw:fx-add:"@ + ident);
    assert(action_command(item, "Add to new track"@) == "daw:fx-new-track:"@ + ident);
    assert(action_command(item, "Replace chain"@) == "daw:fx-replace:"@ + ident);
    assert("daw:fx-add:"@ + ident =~= "daw"@ + seq![':'] + "fx-add"@ + seq![':'] + ident);
    assert("daw:fx-new-track:"@ + ident =~= "daw"@ + seq![':'] + "fx-new-track"@ + seq![':'] + ident);
    assert("daw:fx-replace:"@ + ident =~= "daw"@ + seq![':'] + "fx-replace"@ + seq![':'] + ident);
    lemma_split_three_parts("daw"@, "fx-add"@, ident, ':');
    lemma_split_three_parts("daw"@, "fx-new-track"@, ident, ':');
    lemma_split_three_parts("daw"@, "fx-replace"@, ident, ':');
}

proof fn lemma_name_and_developer(rest: Seq<char>) -> (r: (int, int, int, int))
    ensures
        0 <= r.0 <= r.1 <= rest.len(),
        0 <= r.2 <= r.3 <= rest.len(),
        name_and_developer(rest).0 == rest.subrange(r.0, r.1),
        name_and_developer(rest).1 == rest.subrange(r.2, r.3),
        !name_and_developer(rest).1.contains('('),
        trimmed(name_and_developer(rest).1) == name_and_developer(rest).1,
{
    reveal(name_and_developer);
    let (name, developer) = name_and_developer(rest);
    let p = last_index(rest, '(');
    if p < 0 {
        assert(name =~= rest.subrange(0, rest.len() as int));
        assert(developer =~= rest.subrange(0, 0));
        lemma_trimmed_clean(developer);
        (0, rest.len() as int, 0, 0)
    } else {
        lemma_last_index_bounds(rest, '(', rest.len() as int);
        let (a, b) = lemma_trimmed_range(rest.take(p));
        assert(name =~= rest.subrange(a, b));
        let t = rest.skip(p + 1);
        let j = lemma_trim_end_char_prefix(t, ')');
        let d0 = t.take(j);
        let (c, e) = lemma_trimmed_range(d0);
        assert(developer =~= rest.subrange(p + 1 + c, p + 1 + e));
        assert forall|k: int| 0 <= k < developer.len() implies developer[k] != '(' by {
            assert(developer[k] == rest[p + 1 + c + k]);
            lemma_last_index_after(rest, '(', rest.len() as int, p + 1 + c + k);
        }
        trim_is_idempotent(d0);
        (a, b, p + 1 + c, p + 1 + e)
    }
}

proof fn lemma_format_and_rest(ident: Seq<char>) -> (off: int)
    ensures
        0 <= off <= ident.len(),
        !contains_text(fx_ident_parts(ident).0, ": "@),
        fx_ident_parts(ident).0 == "Unknown"@ || (fx_ident_parts(ident).0 + ": "@).is_prefix_of(ident),
        fx_ident_parts(ident).1 == name_and_developer(ident.skip(off)).0,
        fx_ident_parts(ident).2 == name_and_developer(ident.skip(off)).1,
{
    reveal_strlit(": ");
    reveal_strlit("Unknown");
    let pat = ": "@;
    let i = first_occurrence_from(ident, pat, 0);
    let format = fx_ident_parts(ident).0;
    if i >= 0 {
        lemma_first_occurrence_found(ident, pat, 0);
        assert(format == ident.take(i));
        assert forall|m: int| !occurs_at(format, pat, m) by {
            if occurs_at(format, pat, m) {
                assert(ident.subrange(m, m + 2) =~= format.subrange(m, m + 2));
                lemma_first_occurrence_minimal(ident, pat, 0, m);
            }
        }
        assert((format + pat) =~= ident.subrange(0, i + 2));
        i + 2
    } else {
        assert forall|m: int| !occurs_at("Unknown"@, pat, m) by {
            if occurs_at("Unknown"@, pat, m) {
                assert("Unknown"@.subrange(m, m + 2)[0] == pat[0]);
            }
        }
        assert(ident.skip(0) =~= ident);
        0
    }
}

proof fn lemma_rest_parts_occur(ident: Seq<char>, off: int)
    requires
        0 <= off <= ident.len(),
    ensures
        contains_text(ident, name_and_developer(ident.skip(off)).0),
        contains_text(ident, name_and_developer(ident.skip(off)).1),
{
    let rest = ident.skip(off);
    let r = lemma_name_and_developer(rest);
    assert(rest.subrange(r.0, r.1) =~= ident.subrange(off + r.0, off + r.1));
    assert(rest.subrange(r.2, r.3) =~= ident.subrange(off + r.2, off + r.3));
    lemma_slice_occurs(ident, off + r.0, off + r.1);
    lemma_slice_occurs(ident, off + r.2, off + r.3);
}

/// What `parse_fx_ident` reads from any identifier: the format holds no
/// `": "` and is either `"Unknown"` or what the identifier starts with before
/// its first `": "`; the name and the developer are slices of the identifier;
/// the developer holds no `'('` and is already trimmed.
pub proof fn fx_ident_parts_facts(ident: Seq<char>)
    ensures
        !contains_text(fx_ident_parts(ident).0, ": "@),
        fx_ident_parts(ident).0 == "Unknown"@ || (fx_ident_parts(ident).0 + ": "@).is_prefix_of(ident),
        contains_text(ident, fx_ident_parts(ident).1),
        contains_text(ident, fx_ident_parts(ident).2),
        !fx_ident_parts(ident).2.contains('('),
        trimmed(fx_ident_parts(ident).2) == fx_ident_parts(ident).2,
{
    let off = lemma_format_and_rest(ident);
    lemma_rest_parts_occur(ident, off);
    lemma_name_and_developer(ident.skip(off));
}

/// Reading back a plugin identifier written as `format: name (developer)`
/// gives its parts, when the format holds no `": "`, the name and developer
/// are trimmed, and the developer holds no `'('` and does not end in `')'`.
pub proof fn fx_ident_round_trip(f: Seq<char>, n: Seq<char>, d: Seq<char>)
    requires
        !contains_text(f, ": "@),
        trimmed(n) == n,
        trimmed(d) == d,
        !d.contains('('),
        !(d.len() > 0 && d.last() == ')'),
    ensures
        fx_ident_parts(f + ": "@ + n + " ("@ + d + ")"@) == (f, n, d),
{
    reveal(name_and_developer);
    reveal_strlit(": ");
    reveal_strlit(" (");
    reveal_strlit(")");
    let pat = ": "@;
    let ident = f + ": "@ + n + " ("@ + d + ")"@;
    let fl = f.len() as int;
    assert(ident.subrange(fl, fl + 2) =~= pat);
    assert forall|m: int| 0 <= m < fl implies !occurs_at(ident, pat, m) by {
        if occurs_at(ident, pat, m) {
            if m + 2 <= fl {
                assert(f.subrange(m, m + 2) =~= ident.subrange(m, m + 2));
                assert(occurs_at(f, pat, m));
            } else {
                assert(ident[m + 1] == ':');
                assert(ident.subrange(m, m + 2)[1] == ' ');
            }
        }
    }
    lemma_first_occurrence_is(ident, pat, 0, fl);
    let rest = ident.skip(fl + 2);
    assert(rest =~= n + " ("@ + d + ")"@);
    assert(f =~= ident.take(fl));
    let nl = n.len() as int;
    assert(rest[nl + 1] == '(');
    assert forall|m: int| nl + 1 < m < rest.len() implies rest[m] != '(' by {
        if m < rest.len() - 1 {
            assert(rest[m] == d[m - nl - 2]);
        }
    }
    lemma_last_index_is(rest, '(', rest.len() as int, nl + 1);
    assert(rest.take(nl + 1) =~= n.push(' '));
    assert(is_white_space(' '));
    lemma_trimmed_push_white_space(n, ' ');
    let t = rest.skip(nl + 2);
    assert(t =~= d.push(')'));
    assert(t.drop_last() =~= d);
    assert(trim_end_char(t, ')') == trim_end_char(d, ')'));
    assert(trim_end_char(d, ')') == d);
}

/// The order in which a chain of `count` plugins is emptied: from the last
/// index down to the first.
pub fn removal_order(count: u32) -> (order: Vec<u32>)
    ensures
        order@ == Seq::new(count as nat, |i: int| (count - 1 - i) as u32),
{
    let mut order: Vec<u32> = Vec::new();
    let mut k = count;
    while k > 0
        invariant
            k <= count,
            order@ == Seq::new((count - k) as nat, |i: int| (count - 1 - i) as u32),
        decreases k,
    {
        k = k - 1;
        order.push(k);
        assert(order@ =~= Seq::new((count - k) as nat, |i: int| (count - 1 - i) as u32));
    }
    order
}

/// The configuration a new FX provider starts with: named `fx`, with prefix
/// `f`, without default tags.
pub open spec fn fx_config() -> ProviderConfigView {
    ProviderConfigView {
        name: "fx"@,
        icon: "F"@,
        prefix: Some('f'),
        default_tags: Seq::empty(),
    }
}

/// The provider of installed plugins.
pub struct DawFxProvider {
    config: ProviderConfig,
    plugins: Vec<Item>,
}

impl DawFxProvider {
    pub closed spec fn config_view(&self) -> ProviderConfigView {
        self.config@
    }

    /// The items this provider lists.
    pub closed spec fn plugins(&self) -> Seq<ItemView> {
        item_views(self.plugins@)
    }

    /// A provider named `fx`, with prefix `f` and no plugins yet.
    pub fn new() -> (p: Self)
        ensures
            p.config_view() == fx_config(),
            p.plugins() == Seq::<ItemView>::empty(),
    {
        let p = DawFxProvider {
            config: ProviderConfig {
                name: owned("fx"),
                icon: owned("F"),
                prefix: Some('f'),
                default_tags: Vec::new(),
            },
            plugins: Vec::new(),
        };
        assert(p.config_view().default_tags =~= Seq::empty());
        assert(p.plugins() =~= Seq::empty());
        p
    }

    pub fn name(&self) -> (r: &str)
        ensures
            r@ == "fx"@,
    {
        "fx"
    }

    pub fn config(&self) -> (r: &ProviderConfig)
        ensures
            r@ == self.config_view(),
    {
        &self.config
    }

    pub fn config_mut(&mut self) -> (r: &mut ProviderConfig)
        ensures
            r@ == old(self).config_view(),
            final(self).config_view() == final(r)@,
            final(self).plugins() == old(self).plugins(),
    {
        &mut self.config
    }

    /// Replaces the listed plugins by those the DAW reports; keeps them when
    /// the DAW reports nothing.
    pub fn refresh(&mut self, installed: Option<Vec<InstalledFx>>)
        ensures
            final(self).config_view() == old(self).config_view(),
            final(self).plugins() == match installed {
                Some(v) => fx_items(v@),
                None => old(self).plugins(),
            },
    {
        if let Some(installed) = installed {
            let mut plugins: Vec<Item> = Vec::new();
            for i in 0..installed.len()
                invariant
                    plugins@.len() == i,
                    forall|k: int|
                        0 <= k < i ==> #[trigger] plugins@[k]@ == fx_item(
                            installed@[k].ident@,
                            installed@[k].name@,
                        ),
            {
                plugins.push(fx_item_for(&installed[i]));
            }
            self.plugins = plugins;
            assert(self.plugins() =~= fx_items(installed@));
        }
    }

    /// Loads the plugins the DAW reports.
    pub fn setup(&mut self, installed: Option<Vec<InstalledFx>>)
        ensures
            final(self).config_view() == old(self).config_view(),
            final(self).plugins() == match installed {
                Some(v) => fx_items(v@),
                None => old(self).plugins(),
            },
    {
        self.refresh(installed);
    }

    /// Every listed plugin, whatever the query.
    pub fn query(&self, _q: &str, _exact: bool) -> (r: Vec<Item>)
        ensures
            item_views(r@) == self.plugins(),
    {
        copy_items(&self.plugins)
    }

    /// What activating `action` of `item` asks the DAW to do (`None`: nothing,
    /// not even a look at the project); the launcher then closes.
    pub fn activate(&self, item: &Item, action: &str) -> (r: (Option<FxCommand>, ActivationResult))
        ensures
            match r.0 {
                Some(c) => fx_command(item@, action@) == Some(c@),
                None => fx_command(item@, action@) is None,
            },
            r.1 == ActivationResult::Close,
    {
        let command = item.command_for(action);
        let cmd = match split_in_three(command.as_str(), ':') {
            None => None,
            Some((_, cmd, ident)) => {
                if cmd == owned("fx-add") {
                    Some(FxCommand::AddToSelectedTrack { fx_ident: ident })
                } else if cmd == owned("fx-new-track") {
                    Some(FxCommand::AddToNewTrack { track_name: item.label.clone(), fx_ident: ident })
                } else if cmd == owned("fx-replace") {
                    Some(FxCommand::ReplaceChains { fx_ident: ident })
                } else {
                    Some(FxCommand::Nothing)
                }
            },
        };
        (cmd, ActivationResult::Close)
    }
}

} // verus!
