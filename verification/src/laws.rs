//! Properties of the library that span its functions.

use vstd::prelude::*;
use vstd::relations::sorted_by;
use crate::checkpoints::{checkpoint_filter, checkpoint_selection, has_model_extension};
use crate::order::{lemma_lex_total_ordering, lex_order};
use crate::settings::{
    chosen_value, default_python, env_source, is_default_comfyui, resolve_port, resolves_to, saved_or_default_port,
    AppSettings, EffectiveSettings, LaunchEnvironment, ENV_COMFYUI_PATH, ENV_COMFYUI_PYTHON,
};
use crate::sidecar::{launch_args, plans_launch, python_candidates, start_port, stopped, SidecarState};
use crate::text::{
    all_digits, decimal, digit_char, digits_value, is_blank, is_white_space, parse_u16, trim,
    trim_end, trim_start, words, words_from, ends_with, occurs_at, replace_all, string_views, opt_view,
};
use crate::settings::resolve_extra_args;

verus! {

/// With nothing saved (as after clearing the settings), every value comes
/// from its environment variable when that is set and not blank, and from the
/// built-in default otherwise.
pub proof fn cleared_settings_fall_back(
    settings: AppSettings,
    env: LaunchEnvironment,
    r: EffectiveSettings,
)
    requires
        settings.comfyui_path is None,
        settings.python_path is None,
        settings.default_port is None,
        settings.extra_args is None,
        resolves_to(settings, env, r),
    ensures
        env.comfyui_path is Some && !is_blank(env.comfyui_path->0@) ==> (r.comfyui_path@,
            r.comfyui_source@) == (env.comfyui_path->0@, env_source(ENV_COMFYUI_PATH@)),
        !(env.comfyui_path is Some && !is_blank(env.comfyui_path->0@)) ==> is_default_comfyui(
            env.current_dir@,
            r.comfyui_path@,
            r.comfyui_source@,
        ),
        (r.python_path@, r.python_source@) == (if env.comfyui_python is Some && !is_blank(
            env.comfyui_python->0@,
        ) {
            (env.comfyui_python->0@, env_source(ENV_COMFYUI_PYTHON@))
        } else {
            default_python()
        }),
        (r.default_port, r.port_source@) == resolve_port(None, env.comfyui_port),
{
}

/// The ComfyUI folder that settings resolve to is never blank.
pub proof fn resolved_comfyui_path_is_not_blank(
    settings: AppSettings,
    env: LaunchEnvironment,
    r: EffectiveSettings,
)
    requires
        resolves_to(settings, env, r),
    ensures
        !is_blank(r.comfyui_path@),
{
    if chosen_value(settings.comfyui_path, env.comfyui_path, ENV_COMFYUI_PATH@) is None {
        reveal_strlit("comfyui");
        let d = r.comfyui_path@;
        assert(d.subrange(d.len() - 7, d.len() as int) == "comfyui"@);
        assert(d[d.len() - 1] == d.subrange(d.len() - 7, d.len() as int)[6]);
        assert(!is_white_space(d[d.len() - 1]));
        blank_means_all_white_space(d);
    }
}

/// When no interpreter is saved or set in the environment, a launch tries
/// `python`, then `python3`, then `py`.
pub proof fn default_interpreters_are_tried_in_order(settings: AppSettings, env: LaunchEnvironment)
    requires
        chosen_value(settings.python_path, env.comfyui_python, ENV_COMFYUI_PYTHON@) is None,
    ensures
        python_candidates(settings, env) == seq!["python"@, "python3"@, "py"@],
{
}

/// The effective port of the saved settings is the port they resolve to when
/// the environment sets no port.
pub proof fn effective_port_is_resolved_port(settings: AppSettings)
    ensures
        saved_or_default_port(settings) == resolve_port(settings.default_port, None).0,
{
}

/// A stop leaves no sidecar running and keeps the port; stopping again
/// changes nothing, and a start is then accepted.
pub proof fn stop_is_idempotent(s: SidecarState)
    ensures
        stopped(s).pid is None,
        stopped(s).port == s.port,
        stopped(stopped(s)) == stopped(s),
{
}

/// A start accepted by an idle manager, a successful launch and a stop leave
/// the manager idle again, on the port that the start chose.
pub proof fn start_launch_stop_keeps_port(
    settings: AppSettings,
    env: LaunchEnvironment,
    requested_port: Option<u16>,
    pid: u32,
    idle: SidecarState,
    planned: SidecarState,
    launched: SidecarState,
    ended: SidecarState,
)
    requires
        idle.pid is None,
        planned == (SidecarState { pid: None, port: start_port(settings, env, requested_port) }),
        launched == (SidecarState { pid: Some(pid), port: planned.port }),
        ended == stopped(launched),
    ensures
        ended.pid is None,
        ended.port == start_port(settings, env, requested_port),
{
}

proof fn lemma_decimal_digits(n: nat)
    ensures
        decimal(n).len() > 0,
        all_digits(decimal(n)),
        digits_value(decimal(n)) == n,
        decimal(n)[0] != '+',
    decreases n,
{
    if n >= 10 {
        lemma_decimal_digits(n / 10);
        let d = decimal(n);
        assert(d.drop_last() =~= decimal(n / 10));
        assert(d.last() == digit_char(n % 10));
        assert(digit_char(n % 10) as nat == n % 10 + 48);
        assert(digits_value(d) == digits_value(decimal(n / 10)) * 10 + n % 10);
        assert(d[0] == decimal(n / 10)[0]);
        assert forall|i: int| 0 <= i < d.len() implies crate::text::is_digit(#[trigger] d[i]) by {
            if i < d.len() - 1 {
                assert(d[i] == decimal(n / 10)[i]);
            }
        }
    } else {
        let d = decimal(n);
        assert(digit_char(n) as nat == n + 48);
        assert(d.drop_last() =~= seq![]);
        assert(digits_value(d) == digits_value(d.drop_last()) * 10 + (d.last() as nat - 48) as nat);
    }
}

proof fn lemma_digits_have_no_white_space(s: Seq<char>)
    requires
        all_digits(s),
    ensures
        trim(s) == s,
{
    if s.len() > 0 {
        assert(!is_white_space(s[0]));
        assert(trim_start(s) == s);
        assert(!is_white_space(s.last()));
    }
}

/// The port written on ComfyUI's command line, and a port written in
/// `COMFYUI_PORT` in decimal, read back as the same port.
pub proof fn port_text_reads_back(port: u16)
    ensures
        parse_u16(decimal(port as nat)) == Some(port),
        parse_u16(trim(decimal(port as nat))) == Some(port),
{
    lemma_decimal_digits(port as nat);
    lemma_digits_have_no_white_space(decimal(port as nat));
}

proof fn lemma_words_from_plain(s: Seq<char>, current: Seq<char>)
    requires
        forall|j: int| 0 <= j < current.len() ==> !is_white_space(#[trigger] current[j]),
    ensures
        forall|i: int| 0 <= i < words_from(s, current).len() ==> (#[trigger] words_from(s, current)[i]).len() > 0,
        forall|i: int, j: int|
            0 <= i < words_from(s, current).len() && 0 <= j < words_from(s, current)[i].len()
                ==> !is_white_space(#[trigger] words_from(s, current)[i][j]),
    decreases s.len(),
{
    let head: Seq<Seq<char>> = if current.len() > 0 {
        seq![current]
    } else {
        seq![]
    };
    if s.len() == 0 {
        let all = words_from(s, current);
        assert(all == head);
        assert forall|i: int| 0 <= i < all.len() implies (#[trigger] all[i]).len() > 0 by {
            assert(all[i] == current);
        }
        assert forall|i: int, j: int| 0 <= i < all.len() && 0 <= j < all[i].len() implies !is_white_space(
            #[trigger] all[i][j],
        ) by {
            assert(all[i] == current);
        }
    } else if is_white_space(s[0]) {
        lemma_words_from_plain(s.drop_first(), seq![]);
        let tail = words_from(s.drop_first(), seq![]);
        let all = words_from(s, current);
        assert(all == head + tail);
        assert forall|i: int| 0 <= i < all.len() implies (#[trigger] all[i]).len() > 0 by {
            if i >= head.len() {
                assert(all[i] == tail[i - head.len()]);
            } else {
                assert(all[i] == current);
            }
        }
        assert forall|i: int, j: int| 0 <= i < all.len() && 0 <= j < all[i].len() implies !is_white_space(
            #[trigger] all[i][j],
        ) by {
            if i >= head.len() {
                assert(all[i] == tail[i - head.len()]);
            } else {
                assert(all[i] == current);
            }
        }
    } else {
        let next = current.push(s[0]);
        assert forall|j: int| 0 <= j < next.len() implies !is_white_space(#[trigger] next[j]) by {
            if j < current.len() {
                assert(next[j] == current[j]);
            }
        }
        lemma_words_from_plain(s.drop_first(), next);
        let all = words_from(s, current);
        let rest = words_from(s.drop_first(), next);
        assert(all == rest);
        assert forall|i: int| 0 <= i < all.len() implies (#[trigger] all[i]).len() > 0 by {
            assert(all[i] == rest[i]);
        }
        assert forall|i: int, j: int| 0 <= i < all.len() && 0 <= j < all[i].len() implies !is_white_space(
            #[trigger] all[i][j],
        ) by {
            assert(all[i] == rest[i]);
        }
    }
}

/// The extra arguments passed to ComfyUI are words: none is empty and none
/// holds white space.
pub proof fn launch_words_are_plain(s: Seq<char>)
    ensures
        forall|i: int| 0 <= i < words(s).len() ==> (#[trigger] words(s)[i]).len() > 0,
        forall|i: int, j: int|
            0 <= i < words(s).len() && 0 <= j < words(s)[i].len() ==> !is_white_space(
                #[trigger] words(s)[i][j],
            ),
{
    lemma_words_from_plain(s, seq![]);
}

/// The listed checkpoints are sorted, and are exactly the checkpoint names
/// among the given names, each as often as it was given.
pub proof fn checkpoint_selection_is_sorted_and_exact(names: Seq<Seq<char>>)
    ensures
        sorted_by(checkpoint_selection(names), lex_order()),
        checkpoint_selection(names).to_multiset() == names.filter(checkpoint_filter()).to_multiset(),
{
    lemma_lex_total_ordering();
    names.filter(checkpoint_filter()).lemma_sort_by_ensures(lex_order());
}

proof fn lemma_trim_start_all_white(s: Seq<char>)
    requires
        forall|i: int| 0 <= i < s.len() ==> is_white_space(#[trigger] s[i]),
    ensures
        trim_start(s).len() == 0,
    decreases s.len(),
{
    if s.len() > 0 {
        lemma_trim_start_all_white(s.drop_first());
    }
}

proof fn lemma_trim_start_keeps_first(s: Seq<char>)
    ensures
        trim_start(s).len() == 0 || !is_white_space(trim_start(s)[0]),
        trim_start(s).len() > 0 ==> exists|i: int| 0 <= i < s.len() && !is_white_space(s[i]),
    decreases s.len(),
{
    if s.len() > 0 && is_white_space(s[0]) {
        lemma_trim_start_keeps_first(s.drop_first());
        if trim_start(s).len() > 0 {
            let i = choose|i: int| 0 <= i < s.drop_first().len() && !is_white_space(s.drop_first()[i]);
            assert(s[i + 1] == s.drop_first()[i]);
        }
    } else if s.len() > 0 {
        assert(!is_white_space(s[0]));
    }
}

proof fn lemma_trim_end_nonempty(s: Seq<char>)
    requires
        s.len() > 0,
        !is_white_space(s[0]),
    ensures
        trim_end(s).len() > 0,
    decreases s.len(),
{
    if is_white_space(s.last()) {
        assert(s.len() > 1);
        lemma_trim_end_nonempty(s.drop_last());
    }
}

/// A string is blank exactly when all its characters are white space.
pub proof fn blank_means_all_white_space(s: Seq<char>)
    ensures
        is_blank(s) <==> forall|i: int| 0 <= i < s.len() ==> is_white_space(#[trigger] s[i]),
{
    lemma_trim_start_keeps_first(s);
    if forall|i: int| 0 <= i < s.len() ==> is_white_space(#[trigger] s[i]) {
        lemma_trim_start_all_white(s);
    } else if trim_start(s).len() > 0 {
        lemma_trim_end_nonempty(trim_start(s));
    } else {
        let i = choose|i: int| 0 <= i < s.len() && !is_white_space(s[i]);
        lemma_trim_start_nonempty_witness(s, i);
    }
}

proof fn lemma_trim_start_nonempty_witness(s: Seq<char>, i: int)
    requires
        0 <= i < s.len(),
        !is_white_space(s[i]),
    ensures
        trim_start(s).len() > 0,
    decreases s.len(),
{
    if is_white_space(s[0]) {
        assert(i > 0);
        assert(s.drop_first()[i - 1] == s[i]);
        lemma_trim_start_nonempty_witness(s.drop_first(), i - 1);
    }
}

/// Saved extra arguments always take priority over `COMFYUI_EXTRA_ARGS`,
/// whatever it holds, even when they are blank; the environment's are used
/// only when nothing is saved, and then only when they are not blank.
pub proof fn saved_extra_args_take_priority(saved: Option<String>, env: Option<String>)
    ensures
        saved is Some ==> resolve_extra_args(saved, env) == Some(saved->0@),
        saved is None && env is Some && !is_blank(env->0@) ==> resolve_extra_args(saved, env) == Some(
            env->0@,
        ),
        saved is None && !(env is Some && !is_blank(env->0@)) ==> resolve_extra_args(saved, env)
            is None,
{
}

/// The resolved settings and a planned launch carry the saved extra
/// arguments whenever some are saved: every one of their words is passed,
/// in order, right after the port.
pub proof fn saved_extra_args_reach_the_launch(
    settings: AppSettings,
    env: LaunchEnvironment,
    requested_port: Option<u16>,
    r: EffectiveSettings,
    plan: crate::sidecar::LaunchPlan,
)
    requires
        settings.extra_args is Some,
        resolves_to(settings, env, r),
        plans_launch(settings, env, requested_port, plan),
    ensures
        opt_view(r.extra_args) == Some(settings.extra_args->0@),
        string_views(plan.args@).subrange(6, 6 + words(settings.extra_args->0@).len() as int) == words(
            settings.extra_args->0@,
        ),
{
    launch_args_pass_every_word(plan.port, Some(settings.extra_args->0@));
}

/// The words of the optional extra arguments.
pub open spec fn extra_words(extra: Option<Seq<char>>) -> Seq<Seq<char>> {
    match extra {
        Some(e) => words(e),
        None => seq![],
    }
}

/// The launch arguments are the six fixed ones ending with the port, then
/// every word of the extra arguments in order, then the two CORS arguments.
pub proof fn launch_args_pass_every_word(port: u16, extra: Option<Seq<char>>)
    ensures
        launch_args(port, extra).len() == 8 + extra_words(extra).len(),
        launch_args(port, extra).subrange(0, 6) == seq![
            "-u"@,
            "main.py"@,
            "--listen"@,
            "localhost"@,
            "--port"@,
            decimal(port as nat),
        ],
        launch_args(port, extra).subrange(6, 6 + extra_words(extra).len() as int) == extra_words(extra),
        launch_args(port, extra).subrange(
            6 + extra_words(extra).len() as int,
            8 + extra_words(extra).len() as int,
        ) == seq!["--enable-cors-header"@, "*"@],
{
    let w = extra_words(extra);
    let a = launch_args(port, extra);
    assert(a.subrange(0, 6) =~= seq![
        "-u"@,
        "main.py"@,
        "--listen"@,
        "localhost"@,
        "--port"@,
        decimal(port as nat),
    ]);
    assert(a.subrange(6, 6 + w.len() as int) =~= w);
    assert(a.subrange(6 + w.len() as int, 8 + w.len() as int) =~= seq!["--enable-cors-header"@, "*"@]);
}

/// The characters that are not white space.
pub open spec fn not_white_space() -> spec_fn(char) -> bool {
    |c: char| !is_white_space(c)
}

proof fn lemma_words_from_flatten(s: Seq<char>, current: Seq<char>)
    ensures
        words_from(s, current).flatten() == current + s.filter(not_white_space()),
    decreases s.len(),
{
    reveal_with_fuel(Seq::filter, 2);
    let head: Seq<Seq<char>> = if current.len() > 0 {
        seq![current]
    } else {
        seq![]
    };
    assert(head.flatten() =~= current) by {
        reveal_with_fuel(Seq::flatten, 2);
        if current.len() > 0 {
            assert(head.first() == current);
            assert(head.drop_first() =~= Seq::<Seq<char>>::empty());
            assert(head.drop_first().flatten() =~= Seq::<char>::empty());
        }
    }
    if s.len() == 0 {
        assert(s.filter(not_white_space()) =~= seq![]);
        assert(current + seq![] =~= current);
    } else {
        let rest = s.drop_first();
        assert(s =~= seq![s[0]] + rest);
        Seq::filter_distributes_over_add(seq![s[0]], rest, not_white_space());
        assert(seq![s[0]].drop_last() =~= Seq::<char>::empty());
        if is_white_space(s[0]) {
            lemma_words_from_flatten(rest, seq![]);
            vstd::seq_lib::lemma_flatten_concat(head, words_from(rest, seq![]));
            assert(seq![s[0]].filter(not_white_space()) =~= seq![]);
            assert(current + (seq![] + rest.filter(not_white_space())) =~= current + rest.filter(
                not_white_space(),
            ));
            assert(s.filter(not_white_space()) =~= rest.filter(not_white_space()));
        } else {
            lemma_words_from_flatten(rest, current.push(s[0]));
            assert(seq![s[0]].filter(not_white_space()) =~= seq![s[0]]);
            assert(current.push(s[0]) + rest.filter(not_white_space()) =~= current + (seq![s[0]]
                + rest.filter(not_white_space())));
        }
    }
}

/// The words of `s`, put back together, are exactly the characters of `s`
/// that are not white space, in order: no word, long or short, is lost.
pub proof fn words_keep_every_character(s: Seq<char>)
    ensures
        words(s).flatten() == s.filter(not_white_space()),
{
    lemma_words_from_flatten(s, seq![]);
    assert(seq![] + s.filter(not_white_space()) =~= s.filter(not_white_space()));
}

/// A lowercased name counts as a model file exactly when it ends with one of
/// `.safetensors`, `.ckpt`, `.pt`, `.pth`, `.bin` and `.gguf`.
pub proof fn model_extensions_are_exactly_these(lower: Seq<char>)
    ensures
        has_model_extension(lower) <==> {
            ||| ends_with(lower, ".safetensors"@)
            ||| ends_with(lower, ".ckpt"@)
            ||| ends_with(lower, ".pt"@)
            ||| ends_with(lower, ".pth"@)
            ||| ends_with(lower, ".bin"@)
            ||| ends_with(lower, ".gguf"@)
        },
{
}

/// The last character of `s`, given that `s` ends with `suffix`, is that of `suffix`.
proof fn lemma_ends_with_last(s: Seq<char>, suffix: Seq<char>)
    requires
        ends_with(s, suffix),
        suffix.len() > 0,
    ensures
        s.last() == suffix.last(),
{
    assert(s.subrange(s.len() - suffix.len(), s.len() as int)[suffix.len() - 1] == s.last());
}

/// A file whose lowercase name ends with `.png` (such as a preview image), or
/// `.json`, `.txt` or `.yaml`, is never a model file.
pub proof fn images_and_notes_are_not_models(lower: Seq<char>)
    ensures
        ends_with(lower, ".png"@) ==> !has_model_extension(lower),
        ends_with(lower, ".json"@) ==> !has_model_extension(lower),
        ends_with(lower, ".txt"@) ==> !has_model_extension(lower),
        ends_with(lower, ".yaml"@) ==> !has_model_extension(lower),
{
    reveal_strlit(".png");
    reveal_strlit(".json");
    reveal_strlit(".txt");
    reveal_strlit(".yaml");
    reveal_strlit(".safetensors");
    reveal_strlit(".ckpt");
    reveal_strlit(".pt");
    reveal_strlit(".pth");
    reveal_strlit(".bin");
    reveal_strlit(".gguf");
    if has_model_extension(lower) {
        if ends_with(lower, ".safetensors"@) {
            lemma_ends_with_last(lower, ".safetensors"@);
        } else if ends_with(lower, ".ckpt"@) {
            lemma_ends_with_last(lower, ".ckpt"@);
        } else if ends_with(lower, ".pt"@) {
            lemma_ends_with_last(lower, ".pt"@);
        } else if ends_with(lower, ".pth"@) {
            lemma_ends_with_last(lower, ".pth"@);
        } else if ends_with(lower, ".bin"@) {
            lemma_ends_with_last(lower, ".bin"@);
        } else {
            lemma_ends_with_last(lower, ".gguf"@);
        }
        let n = lower.len() as int;
        if ends_with(lower, ".png"@) {
            lemma_ends_with_at(lower, ".png"@, 3);
        }
        if ends_with(lower, ".json"@) {
            lemma_ends_with_at(lower, ".json"@, 4);
            lemma_ends_with_at(lower, ".json"@, 3);
            if ends_with(lower, ".bin"@) {
                lemma_ends_with_at(lower, ".bin"@, 2);
            }
        }
        if ends_with(lower, ".txt"@) {
            lemma_ends_with_at(lower, ".txt"@, 3);
            lemma_ends_with_at(lower, ".txt"@, 2);
            if ends_with(lower, ".ckpt"@) {
                lemma_ends_with_at(lower, ".ckpt"@, 3);
            }
            if ends_with(lower, ".pt"@) {
                lemma_ends_with_at(lower, ".txt"@, 1);
                lemma_ends_with_at(lower, ".pt"@, 0);
            }
        }
        if ends_with(lower, ".yaml"@) {
            lemma_ends_with_at(lower, ".yaml"@, 4);
        }
    }
}

/// The character of `s` at offset `k` of a suffix `suffix` that `s` ends with.
proof fn lemma_ends_with_at(s: Seq<char>, suffix: Seq<char>, k: int)
    requires
        ends_with(s, suffix),
        0 <= k < suffix.len(),
    ensures
        s[s.len() - suffix.len() + k] == suffix[k],
{
    assert(s.subrange(s.len() - suffix.len(), s.len() as int)[k] == s[s.len() - suffix.len() + k]);
}

/// The listed checkpoints are only model files: no name that is not one is
/// ever listed.
pub proof fn only_model_files_are_listed(names: Seq<Seq<char>>, name: Seq<char>)
    requires
        checkpoint_selection(names).contains(name),
    ensures
        has_model_extension(crate::checkpoints::unicode_lowercase(name)),
{
    broadcast use vstd::seq_lib::group_to_multiset_ensures;
    checkpoint_selection_is_sorted_and_exact(names);
    let f = names.filter(checkpoint_filter());
    assert(checkpoint_selection(names).to_multiset().count(name) > 0);
    assert(f.to_multiset().count(name) > 0);
    assert(f.contains(name));
    assert(exists|i: int| 0 <= i < f.len() && f[i] == name);
    let i = choose|i: int| 0 <= i < f.len() && f[i] == name;
    names.lemma_filter_pred(checkpoint_filter(), i);
}

proof fn lemma_no_occurrence_unchanged(s: Seq<char>, p: Seq<char>, r: Seq<char>)
    requires
        p.len() > 0,
        forall|i: int| 0 <= i < s.len() ==> !occurs_at(s, p, i),
    ensures
        replace_all(s, p, r) == s,
    decreases s.len(),
{
    if s.len() > 0 {
        let t = s.drop_first();
        assert forall|i: int| 0 <= i < t.len() implies !occurs_at(t, p, i) by {
            if occurs_at(t, p, i) {
                assert(s.subrange(i + 1, i + 1 + p.len()) =~= t.subrange(i, i + p.len()));
                assert(occurs_at(s, p, i + 1));
            }
        }
        lemma_no_occurrence_unchanged(t, p, r);
        assert(s =~= seq![s[0]] + t);
    }
}

/// Replacing a pattern in a text that does not hold it changes nothing.
pub proof fn replace_without_occurrence_is_identity(s: Seq<char>, p: Seq<char>, r: Seq<char>)
    requires
        p.len() > 0,
        forall|i: int| 0 <= i < s.len() ==> !occurs_at(s, p, i),
    ensures
        replace_all(s, p, r) == s,
{
    lemma_no_occurrence_unchanged(s, p, r);
}

/// When the first character of the pattern `p` occurs nowhere else in it
/// (as with `.png`), a text that ends with `p` has that ending replaced:
/// replacing in `x + p` gives the replacement of `x`, followed by `r`.
pub proof fn replace_reaches_the_end(x: Seq<char>, p: Seq<char>, r: Seq<char>)
    requires
        p.len() > 0,
        forall|d: int| 0 < d < p.len() ==> #[trigger] p[d] != p[0],
    ensures
        replace_all(x + p, p, r) == replace_all(x, p, r) + r,
    decreases x.len(),
{
    let s = x + p;
    let l = p.len();
    if x.len() == 0 {
        assert(s =~= p);
        assert(s.subrange(0, l as int) =~= p);
        assert(s.skip(l as int) =~= Seq::<char>::empty());
        assert(occurs_at(p, p, 0));
        assert(replace_all(p, p, r) == r + replace_all(p.skip(l as int), p, r));
        assert(replace_all(Seq::<char>::empty(), p, r) == Seq::<char>::empty());
        assert(r + Seq::<char>::empty() =~= r);
        assert(Seq::<char>::empty() + r =~= r);
        assert(replace_all(x, p, r) == Seq::<char>::empty());
    } else if occurs_at(s, p, 0) {
        if x.len() < l {
            let k = x.len() as int;
            assert(s[k] == p[0]);
            assert(s.subrange(0, l as int)[k] == s[k]);
            assert(false);
        }
        assert(x.subrange(0, l as int) =~= s.subrange(0, l as int));
        assert(occurs_at(x, p, 0));
        assert(s.skip(l as int) =~= x.skip(l as int) + p);
        replace_reaches_the_end(x.skip(l as int), p, r);
        assert(replace_all(s, p, r) == r + replace_all(s.skip(l as int), p, r));
        assert(replace_all(x, p, r) == r + replace_all(x.skip(l as int), p, r));
        assert(r + (replace_all(x.skip(l as int), p, r) + r) =~= (r + replace_all(
            x.skip(l as int),
            p,
            r,
        )) + r);
    } else {
        if occurs_at(x, p, 0) {
            assert(x.subrange(0, l as int) =~= s.subrange(0, l as int));
        }
        assert(s.drop_first() =~= x.drop_first() + p);
        assert(s[0] == x[0]);
        replace_reaches_the_end(x.drop_first(), p, r);
        assert(!occurs_at(x, p, 0));
        assert(replace_all(s, p, r) == seq![s[0]] + replace_all(s.drop_first(), p, r));
        assert(replace_all(x, p, r) == seq![x[0]] + replace_all(x.drop_first(), p, r));
        assert(seq![x[0]] + (replace_all(x.drop_first(), p, r) + r) =~= (seq![x[0]] + replace_all(
            x.drop_first(),
            p,
            r,
        )) + r);
    }
}

/// Every name that ends in `.png`, of any length, gets a metadata name that
/// ends in `.json`, so the metadata never takes the image's name.
pub proof fn png_names_get_json_names(name: Seq<char>)
    ensures
        ends_with(name, ".png"@) ==> ends_with(replace_all(name, ".png"@, ".json"@), ".json"@),
{
    reveal_strlit(".png");
    if ends_with(name, ".png"@) {
        let p = ".png"@;
        let x = name.subrange(0, name.len() - 4);
        assert(name =~= x + p);
        replace_reaches_the_end(x, p, ".json"@);
        let out = replace_all(x, p, ".json"@) + ".json"@;
        assert(out.subrange(out.len() - ".json"@.len(), out.len() as int) =~= ".json"@);
    }
}

} // verus!
