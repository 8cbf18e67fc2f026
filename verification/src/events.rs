//! Rule resolution: an observed window event plus the rule table yield an
//! optional target layer. Resolution is total: every matching rule is
//! applied in order (no short-circuiting), so later matching rules overwrite
//! the candidate set by earlier ones.

use vstd::prelude::*;

use crate::config::{Configuration, Rule, Strategy, TitleOverride, VirtualKeyOverride};
use crate::matching::{strategy_match, strategy_matches};
use crate::protocol::{change_layer_request_text, render_change_layer};

verus! {

/// The two window events that drive a resolution.
#[derive(Clone, Copy, Debug, PartialEq, Eq, Structural)]
pub enum Event {
    Show,
    FocusChange,
}

/// View of an optional borrowed string.
pub open spec fn view_opt_str(o: Option<&str>) -> Option<Seq<char>> {
    match o {
        Some(s) => Some(s@),
        None => None,
    }
}

/// View of an optional owned string.
pub open spec fn view_opt_string(o: Option<String>) -> Option<Seq<char>> {
    match o {
        Some(s) => Some(s@),
        None => None,
    }
}

/// View of an optional borrowed owned string.
pub open spec fn view_opt_string_ref(o: Option<&String>) -> Option<Seq<char>> {
    match o {
        Some(s) => Some(s@),
        None => None,
    }
}

/// View of an optional key-state snapshot: the codes of the keys that are
/// currently held down, or `None` when no key-state probe is available.
pub open spec fn view_opt_keys(o: Option<&Vec<i32>>) -> Option<Seq<i32>> {
    match o {
        Some(v) => Some(v@),
        None => None,
    }
}

/// The process-match strategy of a rule; `Equals` when unspecified.
pub open spec fn effective_strategy(rule: Rule) -> Strategy {
    match rule.strategy {
        Some(s) => s,
        None => Strategy::Equals,
    }
}

/// Whether a rule's process matcher matches the process name.
pub open spec fn rule_matches(rule: Rule, exe: Seq<char>) -> bool {
    strategy_matches(effective_strategy(rule), exe, rule.exe@)
}

/// Folds the title overrides over the candidate, in order; every matching
/// override overwrites the candidate, so the last match wins.
pub open spec fn apply_title_overrides(
    overrides: Seq<TitleOverride>,
    title: Seq<char>,
    cand: Option<Seq<char>>,
) -> Option<Seq<char>>
    decreases overrides.len(),
{
    if overrides.len() == 0 {
        cand
    } else {
        let c = if strategy_matches(overrides[0].strategy, title, overrides[0].title@) {
            Some(overrides[0].target_layer@)
        } else {
            cand
        };
        apply_title_overrides(overrides.drop_first(), title, c)
    }
}

/// Folds the virtual-key overrides over the candidate, in order; every
/// override whose key is held down overwrites the candidate.
pub open spec fn apply_key_overrides(
    overrides: Seq<VirtualKeyOverride>,
    pressed: Seq<i32>,
    cand: Option<Seq<char>>,
) -> Option<Seq<char>>
    decreases overrides.len(),
{
    if overrides.len() == 0 {
        cand
    } else {
        let c = if pressed.contains(overrides[0].virtual_key_code) {
            Some(overrides[0].target_layer@)
        } else {
            cand
        };
        apply_key_overrides(overrides.drop_first(), pressed, c)
    }
}

/// Some ignored key is currently held down.
pub open spec fn any_ignored_pressed(ignores: Seq<i32>, pressed: Seq<i32>) -> bool {
    exists|i: int| 0 <= i < ignores.len() && pressed.contains(ignores[i])
}

/// The effect of one rule on the candidate layer. A non-matching rule
/// leaves the candidate alone. A matching rule sets its target layer on a
/// focus change; applies its title overrides when a title is known, falling
/// back to its own target layer when none of them matches; applies its
/// virtual-key overrides on a focus change when a key probe is available;
/// and clears the candidate entirely when any ignored key is held down.
pub open spec fn apply_rule(
    rule: Rule,
    event: Event,
    exe: Seq<char>,
    title: Option<Seq<char>>,
    pressed: Option<Seq<i32>>,
    cand: Option<Seq<char>>,
) -> Option<Seq<char>> {
    if !rule_matches(rule, exe) {
        cand
    } else {
        let c1 = if event is FocusChange {
            Some(rule.target_layer@)
        } else {
            cand
        };
        let c2 = if title is Some && rule.title_overrides is Some {
            let after = apply_title_overrides(rule.title_overrides->Some_0@, title->Some_0, c1);
            if after is None {
                Some(rule.target_layer@)
            } else {
                after
            }
        } else {
            c1
        };
        let c3 = if event is FocusChange && rule.virtual_key_overrides is Some && pressed is Some {
            apply_key_overrides(rule.virtual_key_overrides->Some_0@, pressed->Some_0, c2)
        } else {
            c2
        };
        if event is FocusChange && rule.virtual_key_ignores is Some && pressed is Some
            && any_ignored_pressed(rule.virtual_key_ignores->Some_0@, pressed->Some_0) {
            None
        } else {
            c3
        }
    }
}

/// The starting candidate: a focus change starts from the supplied default
/// layer; a show event never consults a default.
pub open spec fn init_candidate(event: Event, default: Option<Seq<char>>) -> Option<Seq<char>> {
    if event is FocusChange {
        default
    } else {
        None
    }
}

/// Folds the rules over a candidate, in order.
pub open spec fn resolve_from(
    rules: Seq<Rule>,
    event: Event,
    exe: Seq<char>,
    title: Option<Seq<char>>,
    pressed: Option<Seq<i32>>,
    cand: Option<Seq<char>>,
) -> Option<Seq<char>>
    decreases rules.len(),
{
    if rules.len() == 0 {
        cand
    } else {
        resolve_from(
            rules.drop_first(),
            event,
            exe,
            title,
            pressed,
            apply_rule(rules[0], event, exe, title, pressed, cand),
        )
    }
}

/// The resolved target layer for one event, over the whole rule list.
pub open spec fn spec_resolve(
    rules: Seq<Rule>,
    event: Event,
    exe: Seq<char>,
    title: Option<Seq<char>>,
    default: Option<Seq<char>>,
    pressed: Option<Seq<i32>>,
) -> Option<Seq<char>> {
    resolve_from(rules, event, exe, title, pressed, init_candidate(event, default))
}

/// Whether the snapshot lists the key as held down.
fn keys_contain(keys: &Vec<i32>, code: i32) -> (r: bool)
    ensures
        r == keys@.contains(code),
{
    let mut i: usize = 0;
    while i < keys.len()
        invariant
            i <= keys@.len(),
            forall|j: int| 0 <= j < i ==> keys@[j] != code,
        decreases keys@.len() - i,
    {
        if keys[i] == code {
            assert(keys@.contains(code));
            return true;
        }
        i += 1;
    }
    assert(!keys@.contains(code));
    false
}

fn any_ignored_pressed_exec(ignores: &Vec<i32>, keys: &Vec<i32>) -> (r: bool)
    ensures
        r == any_ignored_pressed(ignores@, keys@),
{
    let mut i: usize = 0;
    while i < ignores.len()
        invariant
            i <= ignores@.len(),
            forall|j: int| 0 <= j < i ==> !keys@.contains(ignores@[j]),
        decreases ignores@.len() - i,
    {
        if keys_contain(keys, ignores[i]) {
            assert(any_ignored_pressed(ignores@, keys@));
            return true;
        }
        i += 1;
    }
    false
}

fn apply_title_overrides_exec<'a>(
    overrides: &'a Vec<TitleOverride>,
    title: &str,
    cand: Option<&'a String>,
) -> (r: Option<&'a String>)
    ensures
        view_opt_string_ref(r) == apply_title_overrides(overrides@, title@, view_opt_string_ref(cand)),
{
    let mut cur = cand;
    let mut i: usize = 0;
    proof {
        assert(overrides@.skip(0) =~= overrides@);
    }
    while i < overrides.len()
        invariant
            i <= overrides@.len(),
            apply_title_overrides(overrides@, title@, view_opt_string_ref(cand))
                == apply_title_overrides(overrides@.skip(i as int), title@, view_opt_string_ref(cur)),
        decreases overrides@.len() - i,
    {
        proof {
            assert(overrides@.skip(i as int).drop_first() =~= overrides@.skip(i as int + 1));
            assert(overrides@.skip(i as int)[0] == overrides@[i as int]);
        }
        let ov = &overrides[i];
        if strategy_match(ov.strategy, title, ov.title.as_str()) {
            cur = Some(&ov.target_layer);
        }
        i += 1;
    }
    proof {
        assert(overrides@.skip(overrides@.len() as int) =~= Seq::<TitleOverride>::empty());
    }
    cur
}

fn apply_key_overrides_exec<'a>(
    overrides: &'a Vec<VirtualKeyOverride>,
    keys: &Vec<i32>,
    cand: Option<&'a String>,
) -> (r: Option<&'a String>)
    ensures
        view_opt_string_ref(r) == apply_key_overrides(overrides@, keys@, view_opt_string_ref(cand)),
{
    let mut cur = cand;
    let mut i: usize = 0;
    proof {
        assert(overrides@.skip(0) =~= overrides@);
    }
    while i < overrides.len()
        invariant
            i <= overrides@.len(),
            apply_key_overrides(overrides@, keys@, view_opt_string_ref(cand))
                == apply_key_overrides(overrides@.skip(i as int), keys@, view_opt_string_ref(cur)),
        decreases overrides@.len() - i,
    {
        proof {
            assert(overrides@.skip(i as int).drop_first() =~= overrides@.skip(i as int + 1));
            assert(overrides@.skip(i as int)[0] == overrides@[i as int]);
        }
        let ov = &overrides[i];
        if keys_contain(keys, ov.virtual_key_code) {
            cur = Some(&ov.target_layer);
        }
        i += 1;
    }
    proof {
        assert(overrides@.skip(overrides@.len() as int) =~= Seq::<VirtualKeyOverride>::empty());
    }
    cur
}

fn apply_rule_exec<'a>(
    rule: &'a Rule,
    event: Event,
    exe: &str,
    title: Option<&str>,
    keys: Option<&Vec<i32>>,
    cand: Option<&'a String>,
) -> (r: Option<&'a String>)
    ensures
        view_opt_string_ref(r) == apply_rule(
            *rule,
            event,
            exe@,
            view_opt_str(title),
            view_opt_keys(keys),
            view_opt_string_ref(cand),
        ),
{
    let strat = match rule.strategy {
        Some(s) => s,
        None => Strategy::Equals,
    };
    if !strategy_match(strat, exe, rule.exe.as_str()) {
        return cand;
    }
    let mut cur = if matches!(event, Event::FocusChange) {
        Some(&rule.target_layer)
    } else {
        cand
    };
    if let Some(t) = title {
        if let Some(list) = &rule.title_overrides {
            cur = apply_title_overrides_exec(list, t, cur);
            if cur.is_none() {
                cur = Some(&rule.target_layer);
            }
        }
    }
    if matches!(event, Event::FocusChange) {
        if let Some(ks) = keys {
            if let Some(vkos) = &rule.virtual_key_overrides {
                cur = apply_key_overrides_exec(vkos, ks, cur);
            }
            if let Some(vkis) = &rule.virtual_key_ignores {
                if any_ignored_pressed_exec(vkis, ks) {
                    cur = None;
                }
            }
        }
    }
    cur
}

/// Resolves one event against the whole rule list. Returns the target layer
/// to switch to, or `None` when nothing should be sent. Resolution never
/// fails and never mutates the configuration.
pub fn calculate_target<'a>(
    config: &'a Configuration,
    event: Event,
    exe: &str,
    title: Option<&str>,
    default: Option<&'a String>,
    keys: Option<&Vec<i32>>,
) -> (r: Option<String>)
    ensures
        view_opt_string(r) == spec_resolve(
            config@,
            event,
            exe@,
            view_opt_str(title),
            view_opt_string_ref(default),
            view_opt_keys(keys),
        ),
{
    let mut cand: Option<&'a String> = if matches!(event, Event::FocusChange) {
        default
    } else {
        None
    };
    let mut i: usize = 0;
    proof {
        assert(config@.skip(0) =~= config@);
    }
    while i < config.len()
        invariant
            i <= config@.len(),
            resolve_from(
                config@.skip(i as int),
                event,
                exe@,
                view_opt_str(title),
                view_opt_keys(keys),
                view_opt_string_ref(cand),
            ) == spec_resolve(
                config@,
                event,
                exe@,
                view_opt_str(title),
                view_opt_string_ref(default),
                view_opt_keys(keys),
            ),
        decreases config@.len() - i,
    {
        proof {
            assert(config@.skip(i as int).drop_first() =~= config@.skip(i as int + 1));
            assert(config@.skip(i as int)[0] == config@[i as int]);
        }
        let rule = &config[i];
        cand = apply_rule_exec(rule, event, exe, title, keys, cand);
        i += 1;
    }
    proof {
        assert(config@.skip(config@.len() as int) =~= Seq::<Rule>::empty());
    }
    match cand {
        Some(s) => Some(s.clone()),
        None => None,
    }
}

/// Resolves one accepted event and frames the layer-change command for it.
/// While the sink is marked disconnected no command is produced, whatever
/// resolution yields: the event is dropped, never queued.
pub fn handle_event(
    config: &Configuration,
    event: Event,
    exe: &str,
    title: Option<&str>,
    default: Option<&String>,
    keys: Option<&Vec<i32>>,
    disconnected: bool,
) -> (r: Option<Vec<u8>>)
    ensures
        ({
            let target = spec_resolve(
                config@,
                event,
                exe@,
                view_opt_str(title),
                view_opt_string_ref(default),
                view_opt_keys(keys),
            );
            match r {
                Some(b) => !disconnected && target is Some && b@ == change_layer_request_text(
                    target->Some_0,
                ),
                None => disconnected || target is None,
            }
        }),
{
    if disconnected {
        return None;
    }
    match calculate_target(config, event, exe, title, default, keys) {
        Some(layer) => Some(render_change_layer(layer.as_str())),
        None => None,
    }
}

proof fn lemma_unmatched_keeps_candidate(
    rules: Seq<Rule>,
    event: Event,
    exe: Seq<char>,
    title: Option<Seq<char>>,
    pressed: Option<Seq<i32>>,
    cand: Option<Seq<char>>,
)
    requires
        forall|i: int| 0 <= i < rules.len() ==> !rule_matches(#[trigger] rules[i], exe),
    ensures
        resolve_from(rules, event, exe, title, pressed, cand) == cand,
    decreases rules.len(),
{
    if rules.len() > 0 {
        assert(!rule_matches(rules[0], exe));
        assert forall|i: int|
            0 <= i < rules.drop_first().len() implies !rule_matches(
            #[trigger] rules.drop_first()[i],
            exe,
        ) by {
            assert(rules.drop_first()[i] == rules[i + 1]);
        }
        lemma_unmatched_keeps_candidate(rules.drop_first(), event, exe, title, pressed, cand);
    }
}

/// For every rule list: a focus change for a process that no rule matches
/// resolves to exactly the supplied default layer.
pub proof fn lemma_focus_unmatched_gives_default(
    rules: Seq<Rule>,
    exe: Seq<char>,
    title: Option<Seq<char>>,
    default: Option<Seq<char>>,
    pressed: Option<Seq<i32>>,
)
    requires
        forall|i: int| 0 <= i < rules.len() ==> !rule_matches(#[trigger] rules[i], exe),
    ensures
        spec_resolve(rules, Event::FocusChange, exe, title, default, pressed) == default,
{
    lemma_unmatched_keeps_candidate(rules, Event::FocusChange, exe, title, pressed, default);
}

/// For every rule list: a show event for a process that no rule matches
/// resolves to nothing, whatever default layer is supplied.
pub proof fn lemma_show_unmatched_gives_none(
    rules: Seq<Rule>,
    exe: Seq<char>,
    title: Option<Seq<char>>,
    default: Option<Seq<char>>,
    pressed: Option<Seq<i32>>,
)
    requires
        forall|i: int| 0 <= i < rules.len() ==> !rule_matches(#[trigger] rules[i], exe),
    ensures
        spec_resolve(rules, Event::Show, exe, title, default, pressed) == None::<Seq<char>>,
{
    lemma_unmatched_keeps_candidate(
        rules,
        Event::Show,
        exe,
        title,
        pressed,
        None::<Seq<char>>,
    );
}

/// A matching rule with one title override: on a focus change whose title
/// the override matches, resolution returns the override's layer; when the
/// override does not match, resolution falls back to the rule's own target
/// layer — never to nothing.
pub proof fn lemma_title_override_wins_or_falls_back(
    rule: Rule,
    ov: TitleOverride,
    exe: Seq<char>,
    title: Seq<char>,
    default: Option<Seq<char>>,
    pressed: Option<Seq<i32>>,
)
    requires
        rule_matches(rule, exe),
        rule.title_overrides is Some,
        rule.title_overrides->Some_0@ =~= seq![ov],
        rule.virtual_key_overrides is None,
        rule.virtual_key_ignores is None,
    ensures
        strategy_matches(ov.strategy, title, ov.title@) ==> spec_resolve(
            seq![rule],
            Event::FocusChange,
            exe,
            Some(title),
            default,
            pressed,
        ) == Some(ov.target_layer@),
        !strategy_matches(ov.strategy, title, ov.title@) ==> spec_resolve(
            seq![rule],
            Event::FocusChange,
            exe,
            Some(title),
            default,
            pressed,
        ) == Some(rule.target_layer@),
{
    reveal_with_fuel(resolve_from, 2);
    reveal_with_fuel(apply_title_overrides, 2);
    let ovs = seq![ov];
    assert(ovs.drop_first() =~= Seq::<TitleOverride>::empty());
    let c1 = Some(rule.target_layer@);
    assert(apply_title_overrides(ovs, title, c1) == if strategy_matches(
        ov.strategy,
        title,
        ov.title@,
    ) {
        Some(ov.target_layer@)
    } else {
        c1
    });
    assert(seq![rule].drop_first() =~= Seq::<Rule>::empty());
}

/// Two rules matching the same process compose by list order: on a focus
/// change the later rule's target layer wins.
pub proof fn lemma_last_match_wins(
    r1: Rule,
    r2: Rule,
    exe: Seq<char>,
    title: Option<Seq<char>>,
    default: Option<Seq<char>>,
    pressed: Option<Seq<i32>>,
)
    requires
        rule_matches(r1, exe),
        rule_matches(r2, exe),
        r1.title_overrides is None,
        r1.virtual_key_overrides is None,
        r1.virtual_key_ignores is None,
        r2.title_overrides is None,
        r2.virtual_key_overrides is None,
        r2.virtual_key_ignores is None,
    ensures
        spec_resolve(seq![r1, r2], Event::FocusChange, exe, title, default, pressed) == Some(
            r2.target_layer@,
        ),
{
    reveal_with_fuel(resolve_from, 3);
    let rules = seq![r1, r2];
    assert(rules.drop_first() =~= seq![r2]);
    assert(seq![r2].drop_first() =~= Seq::<Rule>::empty());
    assert(apply_rule(r1, Event::FocusChange, exe, title, pressed, default) == Some(
        r1.target_layer@,
    ));
    assert(apply_rule(r2, Event::FocusChange, exe, title, pressed, Some(r1.target_layer@))
        == Some(r2.target_layer@));
}

/// An ignored key that is held down suppresses the layer switch: resolution
/// returns nothing even though the rule matched and whatever its overrides
/// set as a candidate.
pub proof fn lemma_ignored_key_suppresses(
    rule: Rule,
    exe: Seq<char>,
    title: Option<Seq<char>>,
    default: Option<Seq<char>>,
    pressed: Seq<i32>,
    k: i32,
)
    requires
        rule_matches(rule, exe),
        rule.virtual_key_ignores is Some,
        rule.virtual_key_ignores->Some_0@.contains(k),
        pressed.contains(k),
    ensures
        spec_resolve(seq![rule], Event::FocusChange, exe, title, default, Some(pressed))
            == None::<Seq<char>>,
{
    reveal_with_fuel(resolve_from, 2);
    let ignores = rule.virtual_key_ignores->Some_0@;
    let i = choose|i: int| 0 <= i < ignores.len() && ignores[i] == k;
    assert(pressed.contains(ignores[i]));
    assert(any_ignored_pressed(ignores, pressed));
    assert(seq![rule].drop_first() =~= Seq::<Rule>::empty());
}

} // verus!
