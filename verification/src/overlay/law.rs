//! What is written for a mount can be read back: the option string that an
//! overlay handle hands to the kernel gives the handle's layers and options
//! again when it is found in the table of mounted filesystems.

use crate::error::FsError;
use crate::fs::ActionView;
use crate::option::option_parsed;
use crate::option::option_text;
use crate::option::FsOption;
use crate::option::MountOptionView;
use crate::overlay::opt::lemma_layer_token_is_kept;
use crate::overlay::opt::lemma_text_has_no_comma;
use crate::overlay::opt::OverlayFsOption;
use crate::overlay::OverlayFs;
use crate::partition::PartitionID;
use crate::recover::first_at;
use crate::recover::lemma_sort_options_concat;
use crate::recover::lemma_sort_options_keeps_lower;
use crate::recover::lemma_sort_options_retains;
use crate::recover::names_no_layer;
use crate::recover::names_no_lower;
use crate::recover::no_layers;
use crate::recover::parsed_options;
use crate::recover::restore_spec;
use crate::recover::sort_option;
use crate::recover::sort_options;
use crate::recover::survives;
use crate::recover::LayersView;
use crate::recover::MountEntryView;
use crate::stack::escaped_all;
use crate::stack::kernel_layers_spec;
use crate::stack::option_suffix_spec;
use crate::stack::option_texts;
use crate::stack::StackView;
use crate::text::after;
use crate::text::all_plain;
use crate::text::escape;
use crate::text::free_of;
use crate::text::has_prefix;
use crate::text::join;
use crate::text::lemma_escape_plain;
use crate::text::lemma_join_free_of;
use crate::text::lemma_join_push;
use crate::text::lemma_prefix_concat;
use crate::text::lemma_prefix_differs;
use crate::text::lemma_split_first;
use crate::text::lemma_split_join;
use crate::text::plain;
use crate::text::split;
use vstd::prelude::*;

verus! {

/// Whether both an upper and a work directory are set.
pub open spec fn writable(h: StackView<OverlayFsOption>) -> bool {
    h.upper is Some && h.work is Some
}

/// Whether the handle can be read back from what it writes: it has a lower
/// layer, no path that is written holds a special character, and every
/// option comes back from an option string as it went in.
pub open spec fn readable_back(h: StackView<OverlayFsOption>) -> bool {
    &&& h.lower.len() > 0
    &&& all_plain(h.lower)
    &&& (writable(h) ==> plain(h.upper->0) && plain(h.work->0))
    &&& forall|i: int|
        0 <= i < h.options.len() ==> survives::<OverlayFsOption>(#[trigger] h.options[i])
}

/// The tokens that name the layers of `h`.
pub open spec fn layer_tokens(h: StackView<OverlayFsOption>) -> Seq<Seq<char>> {
    let low = "lowerdir="@ + join(h.lower, ":"@);
    if writable(h) {
        seq![low, "upperdir="@ + h.upper->0, "workdir="@ + h.work->0]
    } else {
        seq![low]
    }
}

/// The option string of `h`.
pub open spec fn data(h: StackView<OverlayFsOption>) -> Seq<char> {
    kernel_layers_spec(h.lower, h.upper, h.work) + option_suffix_spec::<OverlayFsOption>(
        h.options,
    )
}

/// Tokens after a first list of tokens, joined by commas, are the first list
/// joined and then each token after a comma.
proof fn lemma_suffix_is_joined(
    first: Seq<Seq<char>>,
    opts: Seq<MountOptionView<OverlayFsOption>>,
)
    requires
        first.len() > 0,
    ensures
        join(first + option_texts::<OverlayFsOption>(opts), ","@) == join(first, ","@)
            + option_suffix_spec::<OverlayFsOption>(opts),
    decreases opts.len(),
{
    let texts = option_texts::<OverlayFsOption>(opts);
    if opts.len() == 0 {
        assert(first + texts =~= first);
        assert(join(first, ","@) + option_suffix_spec::<OverlayFsOption>(opts) =~= join(
            first,
            ","@,
        ));
    } else {
        let head = opts.drop_last();
        let head_texts = option_texts::<OverlayFsOption>(head);
        let last = option_text::<OverlayFsOption>(opts.last());
        lemma_suffix_is_joined(first, head);
        assert(first + texts =~= (first + head_texts).push(last));
        lemma_join_push(first + head_texts, ","@, last);
        assert(join(first, ","@) + option_suffix_spec::<OverlayFsOption>(head) + ","@ + last
            =~= join(first, ","@) + (option_suffix_spec::<OverlayFsOption>(head) + ","@ + last));
    }
}

/// The option string of a handle that can be read back is its layer tokens
/// and the tokens of its options, joined by commas.
proof fn lemma_data_is_joined(h: StackView<OverlayFsOption>)
    requires
        readable_back(h),
    ensures
        data(h) == join(layer_tokens(h) + option_texts::<OverlayFsOption>(h.options), ","@),
{
    reveal_strlit(",");
    reveal_strlit(",upperdir=");
    reveal_strlit(",workdir=");
    reveal_strlit("upperdir=");
    reveal_strlit("workdir=");
    assert forall|k: int| 0 <= k < h.lower.len() implies escaped_all(h.lower)[k]
        == h.lower[k] by {
        assert(plain(h.lower[k]));
        lemma_escape_plain(h.lower[k]);
    }
    assert(escaped_all(h.lower) =~= h.lower);
    let low = "lowerdir="@ + join(h.lower, ":"@);
    let layers = layer_tokens(h);
    if writable(h) {
        let u = h.upper->0;
        let w = h.work->0;
        lemma_escape_plain(u);
        lemma_escape_plain(w);
        let two = seq![low, "upperdir="@ + u];
        assert(two.drop_last() =~= seq![low]);
        assert(join(seq![low], ","@) == low);
        assert(join(two, ","@) == low + ","@ + ("upperdir="@ + u));
        assert(layers =~= two.push("workdir="@ + w));
        lemma_join_push(two, ","@, "workdir="@ + w);
        assert(",upperdir="@ =~= ","@ + "upperdir="@);
        assert(",workdir="@ =~= ","@ + "workdir="@);
        assert(join(layers, ","@) =~= low + ",upperdir="@ + u + ",workdir="@ + w);
    }
    lemma_suffix_is_joined(layers, h.options);
}

/// No token of a handle that can be read back holds a comma.
proof fn lemma_tokens_hold_no_comma(h: StackView<OverlayFsOption>)
    requires
        readable_back(h),
    ensures
        forall|k: int|
            0 <= k < (layer_tokens(h) + option_texts::<OverlayFsOption>(h.options)).len()
                ==> free_of(
                #[trigger] (layer_tokens(h) + option_texts::<OverlayFsOption>(h.options))[k],
                ',',
            ),
{
    reveal_strlit(":");
    reveal_strlit("lowerdir=");
    reveal_strlit("upperdir=");
    reveal_strlit("workdir=");
    let all = layer_tokens(h) + option_texts::<OverlayFsOption>(h.options);
    assert forall|k: int| 0 <= k < h.lower.len() implies free_of(#[trigger] h.lower[k], ',') by {
        assert(plain(h.lower[k]));
    }
    lemma_join_free_of(h.lower, ':', ',');
    assert(":"@ =~= seq![':']);
    let low = "lowerdir="@ + join(h.lower, ":"@);
    assert(free_of(low, ',')) by {
        assert forall|j: int| 0 <= j < low.len() implies low[j] != ',' by {
            if j >= 9 {
                assert(low[j] == join(h.lower, ":"@)[j - 9]);
            }
        }
    }
    if writable(h) {
        let u = "upperdir="@ + h.upper->0;
        let w = "workdir="@ + h.work->0;
        assert(free_of(u, ',')) by {
            assert forall|j: int| 0 <= j < u.len() implies u[j] != ',' by {
                if j >= 9 {
                    assert(u[j] == h.upper->0[j - 9]);
                }
            }
        }
        assert(free_of(w, ',')) by {
            assert forall|j: int| 0 <= j < w.len() implies w[j] != ',' by {
                if j >= 8 {
                    assert(w[j] == h.work->0[j - 8]);
                }
            }
        }
    }
    assert forall|k: int| 0 <= k < all.len() implies free_of(#[trigger] all[k], ',') by {
        let n = layer_tokens(h).len();
        if k >= n {
            assert(all[k] == option_text::<OverlayFsOption>(h.options[k - n]));
            assert(survives::<OverlayFsOption>(h.options[k - n]));
        }
    }
}

/// The layers of `h` as sorting its layer tokens gives them.
pub open spec fn written_layers(h: StackView<OverlayFsOption>) -> LayersView<OverlayFsOption> {
    LayersView {
        lower: h.lower,
        upper: if writable(h) {
            h.upper
        } else {
            None
        },
        work: if writable(h) {
            h.work
        } else {
            None
        },
        options: Seq::empty(),
    }
}

/// Reading the layer tokens of a handle that can be read back gives its
/// layers.
proof fn lemma_layer_tokens_are_sorted(h: StackView<OverlayFsOption>)
    requires
        readable_back(h),
    ensures
        sort_options(
            no_layers::<OverlayFsOption>(),
            layer_tokens(h).map_values(|t: Seq<char>| option_parsed::<OverlayFsOption>(t)),
        ) == written_layers(h),
{
    reveal_strlit(":");
    reveal_strlit("lowerdir=");
    reveal_strlit("upperdir=");
    reveal_strlit("workdir=");
    assert(":"@ =~= seq![':']);
    let lowerdir = "lowerdir="@;
    let upperdir = "upperdir="@;
    let workdir = "workdir="@;
    let joined = join(h.lower, ":"@);
    let low = lowerdir + joined;
    assert(low[0] == lowerdir[0]);
    lemma_layer_token_is_kept(low);
    lemma_prefix_concat(lowerdir, joined);
    assert forall|k: int| 0 <= k < h.lower.len() implies free_of(#[trigger] h.lower[k], ':') by {
        assert(plain(h.lower[k]));
    }
    lemma_split_join(h.lower, ':');
    let start = no_layers::<OverlayFsOption>();
    let kept_low = MountOptionView::<OverlayFsOption>::Other(low);
    assert(option_parsed::<OverlayFsOption>(low) == kept_low);
    let after_low = sort_option(start, kept_low);
    assert(after_low.lower =~= h.lower);
    let parsed = layer_tokens(h).map_values(|t: Seq<char>| option_parsed::<OverlayFsOption>(t));
    let none = Seq::<MountOptionView<OverlayFsOption>>::empty();
    assert(sort_options(start, none) == start);
    if writable(h) {
        let u = h.upper->0;
        let w = h.work->0;
        let up = upperdir + u;
        let wk = workdir + w;
        assert(up[0] == upperdir[0] && up[1] == upperdir[1]);
        assert(wk[0] == workdir[0]);
        lemma_layer_token_is_kept(up);
        lemma_layer_token_is_kept(wk);
        lemma_prefix_differs(up, lowerdir, 0);
        lemma_prefix_concat(upperdir, u);
        lemma_prefix_differs(wk, lowerdir, 0);
        lemma_prefix_differs(wk, upperdir, 0);
        lemma_prefix_concat(workdir, w);
        let kept_up = MountOptionView::<OverlayFsOption>::Other(up);
        let kept_wk = MountOptionView::<OverlayFsOption>::Other(wk);
        assert(parsed =~= seq![kept_low, kept_up, kept_wk]);
        let one = seq![kept_low];
        let two = seq![kept_low, kept_up];
        assert(parsed.drop_last() =~= two);
        assert(two.drop_last() =~= one);
        assert(one.drop_last() =~= none);
        assert(sort_options(start, one) == after_low);
        assert(sort_options(start, two) == sort_option(after_low, kept_up));
        assert(sort_options(start, parsed) == sort_option(
            sort_option(after_low, kept_up),
            kept_wk,
        ));
    } else {
        assert(parsed =~= seq![kept_low]);
        assert(parsed.drop_last() =~= none);
        assert(sort_options(start, parsed) == after_low);
    }
}

/// Recovery after a mount: where a handle that can be read back was mounted
/// and the table of mounted filesystems shows its option string at its
/// target, recovery at that target gives a handle with the same lower
/// layers, the same options and the same target, with the upper and the work
/// directory that were written, mounted on the filesystem of the target, and
/// not unmounting when its owner lets it go.
pub proof fn lemma_recover_after_mount(
    h: StackView<OverlayFsOption>,
    entries: Seq<MountEntryView>,
    id: PartitionID,
)
    requires
        readable_back(h),
        0 <= first_at(entries, h.target) < entries.len(),
        entries[first_at(entries, h.target)].options == OverlayFs::request(h)->KernelMount_data,
    ensures
        OverlayFs::recover_spec(h.target, entries, Some(id)) == Ok::<
            StackView<OverlayFsOption>,
            FsError,
        >(
            StackView {
                lower: h.lower,
                upper: written_layers(h).upper,
                work: written_layers(h).work,
                target: h.target,
                options: h.options,
                id: Some(id),
                unmount_on_drop: false,
            },
        ),
{
    reveal_strlit(",");
    assert(","@ =~= seq![',']);
    let layers = layer_tokens(h);
    let texts = option_texts::<OverlayFsOption>(h.options);
    let all = layers + texts;
    lemma_data_is_joined(h);
    lemma_tokens_hold_no_comma(h);
    lemma_split_join(all, ',');
    assert(split(data(h), ',') == all);
    let parsed = parsed_options::<OverlayFsOption>(data(h));
    let parsed_layers = layers.map_values(|t: Seq<char>| option_parsed::<OverlayFsOption>(t));
    assert(parsed =~= parsed_layers + h.options) by {
        assert forall|k: int| 0 <= k < all.len() implies parsed[k] == (parsed_layers
            + h.options)[k] by {
            if k >= layers.len() {
                let j = k - layers.len();
                assert(all[k] == option_text::<OverlayFsOption>(h.options[j]));
                assert(survives::<OverlayFsOption>(h.options[j]));
            } else {
                assert(all[k] == layers[k]);
            }
        }
    }
    lemma_layer_tokens_are_sorted(h);
    lemma_sort_options_concat(no_layers::<OverlayFsOption>(), parsed_layers, h.options);
    assert forall|i: int| 0 <= i < h.options.len() implies names_no_layer(
        #[trigger] h.options[i],
    ) by {
        assert(survives::<OverlayFsOption>(h.options[i]));
    }
    lemma_sort_options_retains(written_layers(h), h.options);
    assert(Seq::<MountOptionView<OverlayFsOption>>::empty() + h.options =~= h.options);
    assert(restore_spec::<OverlayFsOption>(h.target, entries) == Some(parsed));
}

/// What `h` writes after its lower layers: the upper and the work directory
/// where both are set, and then the options.
pub open spec fn after_lower(h: StackView<OverlayFsOption>) -> Seq<char> {
    let layers = if writable(h) {
        ",upperdir="@ + escape(h.upper->0) + ",workdir="@ + escape(h.work->0)
    } else {
        Seq::<char>::empty()
    };
    layers + option_suffix_spec::<OverlayFsOption>(h.options)
}

/// Whether the lower layers of `h` can be read back from what it writes: it
/// has a lower layer, no lower path holds a special character, and no piece
/// between the commas of what is written after the lower layers begins with
/// `lowerdir=`.
pub open spec fn lower_readable_back(h: StackView<OverlayFsOption>) -> bool {
    &&& h.lower.len() > 0
    &&& all_plain(h.lower)
    &&& forall|i: int|
        0 <= i < split(after_lower(h), ',').len() ==> !has_prefix(
            #[trigger] split(after_lower(h), ',')[i],
            "lowerdir="@,
        )
}

/// The tokens of a list of options, each after a comma, are nothing or begin
/// with a comma.
proof fn lemma_suffix_begins_with_comma(opts: Seq<MountOptionView<OverlayFsOption>>)
    ensures
        option_suffix_spec::<OverlayFsOption>(opts).len() == 0 || option_suffix_spec::<
            OverlayFsOption,
        >(opts)[0] == ',',
    decreases opts.len(),
{
    reveal_strlit(",");
    if opts.len() > 0 {
        let head = option_suffix_spec::<OverlayFsOption>(opts.drop_last());
        lemma_suffix_begins_with_comma(opts.drop_last());
        let whole = head + ","@ + option_text::<OverlayFsOption>(opts.last());
        if head.len() > 0 {
            assert(whole[0] == head[0]);
        } else {
            assert(whole[0] == ","@[0]);
        }
    }
}

/// Recovery after a mount gives the same lower layers: where the table of
/// mounted filesystems shows, at the target of a handle, the option string
/// that the handle wrote for its mount, and the lower layers can be read back
/// from it, recovery at that target gives a handle with the same lower
/// layers in the same order and the same target, mounted on the filesystem of
/// the target, and not unmounting when its owner lets it go.
pub proof fn lemma_recover_lower_after_mount(
    h: StackView<OverlayFsOption>,
    entries: Seq<MountEntryView>,
    id: PartitionID,
)
    requires
        lower_readable_back(h),
        0 <= first_at(entries, h.target) < entries.len(),
        entries[first_at(entries, h.target)].options == OverlayFs::request(h)->KernelMount_data,
    ensures
        ({
            let r = OverlayFs::recover_spec(h.target, entries, Some(id));
            &&& r is Ok
            &&& r->Ok_0.lower == h.lower
            &&& r->Ok_0.target == h.target
            &&& r->Ok_0.id == Some(id)
            &&& !r->Ok_0.unmount_on_drop
        }),
{
    reveal_strlit(":");
    reveal_strlit(",");
    reveal_strlit("lowerdir=");
    reveal_strlit(",upperdir=");
    assert(":"@ =~= seq![':']);
    assert forall|k: int| 0 <= k < h.lower.len() implies escaped_all(h.lower)[k]
        == h.lower[k] by {
        assert(plain(h.lower[k]));
        lemma_escape_plain(h.lower[k]);
    }
    assert(escaped_all(h.lower) =~= h.lower);
    let lowerdir = "lowerdir="@;
    let joined = join(h.lower, ":"@);
    let low = lowerdir + joined;
    let rest = after_lower(h);
    assert(data(h) =~= low + rest);
    // the first token holds no comma
    assert forall|k: int| 0 <= k < h.lower.len() implies free_of(#[trigger] h.lower[k], ',') by {
        assert(plain(h.lower[k]));
    }
    lemma_join_free_of(h.lower, ':', ',');
    assert(free_of(low, ',')) by {
        assert forall|j: int| 0 <= j < low.len() implies low[j] != ',' by {
            if j >= 9 {
                assert(low[j] == joined[j - 9]);
            }
        }
    }
    // what follows is nothing or begins with a comma
    lemma_suffix_begins_with_comma(h.options);
    if writable(h) {
        assert(rest[0] == ",upperdir="@[0]);
    }
    lemma_split_first(low, rest, ',');
    let pieces = split(rest, ',');
    let later = pieces.skip(1);
    assert(split(data(h), ',') == seq![low] + later);
    // the first token gives the lower layers
    assert(low[0] == lowerdir[0]);
    lemma_layer_token_is_kept(low);
    lemma_prefix_concat(lowerdir, joined);
    assert forall|k: int| 0 <= k < h.lower.len() implies free_of(#[trigger] h.lower[k], ':') by {
        assert(plain(h.lower[k]));
    }
    lemma_split_join(h.lower, ':');
    let start = no_layers::<OverlayFsOption>();
    let kept_low = MountOptionView::<OverlayFsOption>::Other(low);
    let first = seq![kept_low];
    let none = Seq::<MountOptionView<OverlayFsOption>>::empty();
    assert(first.drop_last() =~= none);
    assert(sort_options(start, none) == start);
    let after_low = sort_options(start, first);
    assert(after_low == sort_option(start, kept_low));
    assert(after_low.lower =~= h.lower);
    // the later tokens add none
    let parsed_later = later.map_values(|t: Seq<char>| option_parsed::<OverlayFsOption>(t));
    assert forall|i: int| 0 <= i < parsed_later.len() implies names_no_lower(
        #[trigger] parsed_later[i],
    ) by {
        assert(later[i] == pieces[i + 1]);
        assert(!has_prefix(pieces[i + 1], lowerdir));
    }
    lemma_sort_options_keeps_lower(after_low, parsed_later);
    let parsed = parsed_options::<OverlayFsOption>(data(h));
    assert(parsed =~= first + parsed_later);
    lemma_sort_options_concat(start, first, parsed_later);
    assert(restore_spec::<OverlayFsOption>(h.target, entries) == Some(parsed));
}

/// Every option of this backend comes back from an option string as it went
/// in.
pub proof fn lemma_backend_options_survive(v: OverlayFsOption)
    ensures
        survives::<OverlayFsOption>(MountOptionView::FsSpecific(v)),
{
    lemma_text_has_no_comma(v);
    OverlayFsOption::lemma_round_trip(v);
    OverlayFsOption::lemma_text_is_specific(v);
}

} // verus!
