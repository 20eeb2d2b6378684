//! The merge's general laws, proved over the fold model of
//! [`crate::merge`]: records are only appended, an identifier is claimed
//! at most once, a claimed identifier blocks every later record, and the
//! dependency entries come out in reverse contribution order.

use vstd::prelude::*;

use crate::ids::contains_seq;
use crate::ids::lower_seq;
use crate::merge::cell_step;
use crate::merge::cells_fold;
use crate::merge::light_step;
use crate::merge::lights_fold;
use crate::merge::plugin_step;
use crate::merge::plugins_fold;
use crate::merge::LightInputView;
use crate::merge::MergeView;
use crate::merge::PluginView;
use crate::paths::output_name;
use crate::paths::should_scan_spec;
use crate::records::record_id;
use crate::transform::cell_result;
use crate::transform::light_result;
use crate::records::CellView;
use crate::records::MasterView;
use crate::records::RecordView;

verus! {

/// The key a record is deduplicated by: its identifier, lowercased.
pub open spec fn record_key(r: RecordView) -> Seq<u8> {
    lower_seq(record_id(r))
}

/// A well-formed merge state: every collected record's key has been
/// claimed, and no two collected records share a key.
pub open spec fn wf_state(m: MergeView) -> bool {
    &&& forall|i: int|
        0 <= i < m.records.len() ==> m.claimed.contains(#[trigger] record_key(m.records[i]))
    &&& forall|i: int, j: int|
        #![trigger record_key(m.records[i]), record_key(m.records[j])]
        0 <= i < j < m.records.len() ==> record_key(m.records[i]) != record_key(m.records[j])
}

proof fn lemma_cell_step_props(m: MergeView, c: CellView)
    ensures
        cell_step(m, c).masters == m.masters,
        cell_step(m, c).records.len() >= m.records.len(),
        forall|i: int| 0 <= i < m.records.len() ==> cell_step(m, c).records[i] == m.records[i],
        forall|x: Seq<u8>| m.claimed.contains(x) ==> cell_step(m, c).claimed.contains(x),
        forall|j: int|
            m.records.len() <= j < cell_step(m, c).records.len() ==> !m.claimed.contains(
                #[trigger] record_key(cell_step(m, c).records[j]),
            ) && cell_step(m, c).claimed.contains(record_key(cell_step(m, c).records[j])),
        wf_state(m) ==> wf_state(cell_step(m, c)),
{
    let m2 = cell_step(m, c);
    let key = lower_seq(c.id);
    if c.interior && !m.claimed.contains(key) {
        assert forall|x: Seq<u8>| m.claimed.contains(x) implies m2.claimed.contains(x) by {
            let i = choose|i: int| 0 <= i < m.claimed.len() && m.claimed[i] == x;
            assert(m2.claimed[i] == x);
        }
        assert(m2.claimed[m.claimed.len() as int] == key);
        assert(m2.claimed.contains(key));
        assert(record_key(m2.records[m.records.len() as int]) == key);
    }
}

proof fn lemma_light_step_props(m: MergeView, l: LightInputView, df: bool)
    ensures
        light_step(m, l, df).masters == m.masters,
        light_step(m, l, df).records.len() >= m.records.len(),
        forall|i: int|
            0 <= i < m.records.len() ==> light_step(m, l, df).records[i] == m.records[i],
        forall|x: Seq<u8>| m.claimed.contains(x) ==> light_step(m, l, df).claimed.contains(x),
        forall|j: int|
            m.records.len() <= j < light_step(m, l, df).records.len() ==> !m.claimed.contains(
                #[trigger] record_key(light_step(m, l, df).records[j]),
            ) && light_step(m, l, df).claimed.contains(
                record_key(light_step(m, l, df).records[j]),
            ),
        wf_state(m) ==> wf_state(light_step(m, l, df)),
{
    let m2 = light_step(m, l, df);
    let key = lower_seq(l.light.id);
    if !m.claimed.contains(key) {
        assert forall|x: Seq<u8>| m.claimed.contains(x) implies m2.claimed.contains(x) by {
            let i = choose|i: int| 0 <= i < m.claimed.len() && m.claimed[i] == x;
            assert(m2.claimed[i] == x);
        }
        assert(m2.claimed[m.claimed.len() as int] == key);
        assert(m2.claimed.contains(key));
        assert(record_key(m2.records[m.records.len() as int]) == key);
    }
}

proof fn lemma_cells_fold_props(m: MergeView, cells: Seq<CellView>)
    ensures
        cells_fold(m, cells).masters == m.masters,
        cells_fold(m, cells).records.len() >= m.records.len(),
        forall|i: int|
            0 <= i < m.records.len() ==> cells_fold(m, cells).records[i] == m.records[i],
        forall|x: Seq<u8>| m.claimed.contains(x) ==> cells_fold(m, cells).claimed.contains(x),
        forall|j: int|
            m.records.len() <= j < cells_fold(m, cells).records.len() ==> !m.claimed.contains(
                #[trigger] record_key(cells_fold(m, cells).records[j]),
            ) && cells_fold(m, cells).claimed.contains(
                record_key(cells_fold(m, cells).records[j]),
            ),
        wf_state(m) ==> wf_state(cells_fold(m, cells)),
    decreases cells.len(),
{
    if cells.len() > 0 {
        let mid = cells_fold(m, cells.drop_last());
        lemma_cells_fold_props(m, cells.drop_last());
        lemma_cell_step_props(mid, cells.last());
    }
}

proof fn lemma_lights_fold_props(m: MergeView, lights: Seq<LightInputView>, df: bool)
    ensures
        lights_fold(m, lights, df).masters == m.masters,
        lights_fold(m, lights, df).records.len() >= m.records.len(),
        forall|i: int|
            0 <= i < m.records.len() ==> lights_fold(m, lights, df).records[i] == m.records[i],
        forall|x: Seq<u8>|
            m.claimed.contains(x) ==> lights_fold(m, lights, df).claimed.contains(x),
        forall|j: int|
            m.records.len() <= j < lights_fold(m, lights, df).records.len()
                ==> !m.claimed.contains(
                #[trigger] record_key(lights_fold(m, lights, df).records[j]),
            ) && lights_fold(m, lights, df).claimed.contains(
                record_key(lights_fold(m, lights, df).records[j]),
            ),
        wf_state(m) ==> wf_state(lights_fold(m, lights, df)),
    decreases lights.len(),
{
    if lights.len() > 0 {
        let mid = lights_fold(m, lights.drop_last(), df);
        lemma_lights_fold_props(m, lights.drop_last(), df);
        lemma_light_step_props(mid, lights.last(), df);
    }
}

proof fn lemma_plugin_step_props(m: MergeView, p: PluginView, df: bool)
    ensures
        plugin_step(m, p, df).records.len() >= m.records.len(),
        forall|i: int|
            0 <= i < m.records.len() ==> plugin_step(m, p, df).records[i] == m.records[i],
        forall|x: Seq<u8>| m.claimed.contains(x) ==> plugin_step(m, p, df).claimed.contains(x),
        forall|j: int|
            m.records.len() <= j < plugin_step(m, p, df).records.len() ==> !m.claimed.contains(
                #[trigger] record_key(plugin_step(m, p, df).records[j]),
            ) && plugin_step(m, p, df).claimed.contains(
                record_key(plugin_step(m, p, df).records[j]),
            ),
        wf_state(m) ==> wf_state(plugin_step(m, p, df)),
{
    let mid = cells_fold(m, p.cells);
    lemma_cells_fold_props(m, p.cells);
    lemma_lights_fold_props(mid, p.lights, df);
    let folded = lights_fold(mid, p.lights, df);
    let out = plugin_step(m, p, df);
    assert(out.records == folded.records);
    assert(out.claimed == folded.claimed);
    assert forall|j: int|
        m.records.len() <= j < out.records.len() implies !m.claimed.contains(
        #[trigger] record_key(out.records[j]),
    ) && out.claimed.contains(record_key(out.records[j])) by {
        if j < mid.records.len() {
            assert(folded.records[j] == mid.records[j]);
            assert(!m.claimed.contains(record_key(mid.records[j])));
            assert(mid.claimed.contains(record_key(mid.records[j])));
        } else {
            assert(!mid.claimed.contains(record_key(folded.records[j])));
            if m.claimed.contains(record_key(folded.records[j])) {
                assert(mid.claimed.contains(record_key(folded.records[j])));
            }
            assert(folded.claimed.contains(record_key(folded.records[j])));
        }
    }
    if wf_state(m) {
        assert(wf_state(folded));
        assert forall|i: int| 0 <= i < out.records.len() implies out.claimed.contains(
            #[trigger] record_key(out.records[i]),
        ) by {
            assert(folded.claimed.contains(record_key(folded.records[i])));
        }
        assert forall|i: int, j: int|
            #![trigger record_key(out.records[i]), record_key(out.records[j])]
            0 <= i < j < out.records.len() implies record_key(out.records[i]) != record_key(
            out.records[j],
        ) by {
            assert(record_key(folded.records[i]) != record_key(folded.records[j]));
        }
    }
}

proof fn lemma_plugins_fold_props(m: MergeView, plugins: Seq<PluginView>, df: bool)
    ensures
        plugins_fold(m, plugins, df).records.len() >= m.records.len(),
        forall|i: int|
            0 <= i < m.records.len() ==> plugins_fold(m, plugins, df).records[i]
                == m.records[i],
        forall|x: Seq<u8>|
            m.claimed.contains(x) ==> plugins_fold(m, plugins, df).claimed.contains(x),
        forall|j: int|
            m.records.len() <= j < plugins_fold(m, plugins, df).records.len()
                ==> !m.claimed.contains(
                #[trigger] record_key(plugins_fold(m, plugins, df).records[j]),
            ) && plugins_fold(m, plugins, df).claimed.contains(
                record_key(plugins_fold(m, plugins, df).records[j]),
            ),
        wf_state(m) ==> wf_state(plugins_fold(m, plugins, df)),
    decreases plugins.len(),
{
    if plugins.len() > 0 {
        let mid = plugins_fold(m, plugins.drop_last(), df);
        lemma_plugins_fold_props(m, plugins.drop_last(), df);
        lemma_plugin_step_props(mid, plugins.last(), df);
        let stepped = plugin_step(mid, plugins.last(), df);
        let out = plugins_fold(m, plugins, df);
        assert(out == stepped);
        assert forall|j: int|
            m.records.len() <= j < out.records.len() implies !m.claimed.contains(
            #[trigger] record_key(out.records[j]),
        ) && out.claimed.contains(record_key(out.records[j])) by {
            if j < mid.records.len() {
                assert(stepped.records[j] == mid.records[j]);
                assert(!m.claimed.contains(record_key(mid.records[j])));
                assert(mid.claimed.contains(record_key(mid.records[j])));
            } else {
                assert(!mid.claimed.contains(record_key(stepped.records[j])));
                if m.claimed.contains(record_key(stepped.records[j])) {
                    assert(mid.claimed.contains(record_key(stepped.records[j])));
                }
                assert(stepped.claimed.contains(record_key(stepped.records[j])));
            }
        }
    }
}

/// Law: the merge only appends. Whatever a run has collected, folding
/// further plugins never removes or reorders it, and never unclaims an
/// identifier.
pub proof fn lemma_records_append_only(m: MergeView, plugins: Seq<PluginView>, df: bool)
    ensures
        plugins_fold(m, plugins, df).records.len() >= m.records.len(),
        forall|i: int|
            0 <= i < m.records.len() ==> plugins_fold(m, plugins, df).records[i]
                == m.records[i],
        forall|x: Seq<u8>|
            m.claimed.contains(x) ==> plugins_fold(m, plugins, df).claimed.contains(x),
{
    lemma_plugins_fold_props(m, plugins, df);
}

/// Law: one record per identifier. Starting from a well-formed state — the
/// empty one is — the state after any sequence of plugins is well-formed:
/// no two collected records share a lowercased identifier.
pub proof fn lemma_no_duplicate_identifiers(m: MergeView, plugins: Seq<PluginView>, df: bool)
    requires
        wf_state(m),
    ensures
        wf_state(plugins_fold(m, plugins, df)),
{
    lemma_plugins_fold_props(m, plugins, df);
}

/// Law: priority resolution. Once an identifier has been claimed — by the
/// highest-priority plugin that carried it, since plugins are folded in
/// reverse load order — no later-processed plugin contributes a record
/// under that identifier.
pub proof fn lemma_claimed_identifier_blocks(
    m: MergeView,
    plugins: Seq<PluginView>,
    df: bool,
    key: Seq<u8>,
)
    requires
        m.claimed.contains(key),
    ensures
        forall|j: int|
            m.records.len() <= j < plugins_fold(m, plugins, df).records.len()
                ==> record_key(#[trigger] plugins_fold(m, plugins, df).records[j]) != key,
{
    lemma_plugins_fold_props(m, plugins, df);
}

/// Law: an eligible light is emitted. A light whose lowercased identifier
/// is still unclaimed is appended to the record list exactly as the light
/// rewrite specifies, and its identifier is claimed; together with
/// [`lemma_claimed_identifier_blocks`] this is first-writer-wins.
pub proof fn lemma_unclaimed_light_emitted(m: MergeView, l: LightInputView, df: bool)
    requires
        !m.claimed.contains(lower_seq(l.light.id)),
    ensures
        light_step(m, l, df).records == m.records.push(
            RecordView::Light(light_result(l.light, l.hue_bits, l.standard, l.colored, df)),
        ),
        light_step(m, l, df).claimed.contains(lower_seq(l.light.id)),
{
    let m2 = light_step(m, l, df);
    assert(m2.claimed[m.claimed.len() as int] == lower_seq(l.light.id));
}

/// Law: an eligible interior cell is emitted. An interior cell whose
/// lowercased identifier is still unclaimed is appended to the record
/// list scrubbed — references dropped, sunlight zeroed — and its
/// identifier is claimed.
pub proof fn lemma_unclaimed_interior_cell_emitted(m: MergeView, c: CellView)
    requires
        c.interior,
        !m.claimed.contains(lower_seq(c.id)),
    ensures
        cell_step(m, c).records == m.records.push(RecordView::Cell(cell_result(c))),
        cell_step(m, c).claimed.contains(lower_seq(c.id)),
{
    let m2 = cell_step(m, c);
    assert(m2.claimed[m.claimed.len() as int] == lower_seq(c.id));
}

/// What one plugin adds to the dependency list: one entry when it
/// contributed a record, none otherwise.
pub open spec fn step_contribution(prev: MergeView, p: PluginView, df: bool) -> Seq<MasterView> {
    if plugin_step(prev, p, df).records.len() > prev.records.len() {
        seq![MasterView { name: p.name, size: p.size }]
    } else {
        Seq::empty()
    }
}

/// The contributing plugins of a run, in processing order.
pub open spec fn contributors(m: MergeView, plugins: Seq<PluginView>, df: bool) -> Seq<
    MasterView,
>
    decreases plugins.len(),
{
    if plugins.len() == 0 {
        Seq::empty()
    } else {
        contributors(m, plugins.drop_last(), df) + step_contribution(
            plugins_fold(m, plugins.drop_last(), df),
            plugins.last(),
            df,
        )
    }
}

/// Law: dependency ordering. The dependency list of the final state is the
/// contributing plugins in the reverse of processing order (each entry is
/// inserted at the front). Since the plugins are processed in reverse load
/// order, the list comes out in original load order.
pub proof fn lemma_masters_in_load_order(m: MergeView, plugins: Seq<PluginView>, df: bool)
    ensures
        plugins_fold(m, plugins, df).masters == contributors(m, plugins, df).reverse()
            + m.masters,
    decreases plugins.len(),
{
    if plugins.len() == 0 {
        assert(contributors(m, plugins, df).reverse() =~= Seq::<MasterView>::empty());
        assert(plugins_fold(m, plugins, df).masters =~= contributors(m, plugins, df).reverse()
            + m.masters);
    } else {
        let prev = plugins_fold(m, plugins.drop_last(), df);
        let p = plugins.last();
        lemma_masters_in_load_order(m, plugins.drop_last(), df);
        let folded = lights_fold(cells_fold(prev, p.cells), p.lights, df);
        lemma_cells_fold_props(prev, p.cells);
        lemma_lights_fold_props(cells_fold(prev, p.cells), p.lights, df);
        assert(folded.masters == prev.masters);
        let added = step_contribution(prev, p, df);
        assert(plugin_step(prev, p, df).masters == added + prev.masters) by {
            if plugin_step(prev, p, df).records.len() > prev.records.len() {
                assert(plugin_step(prev, p, df).masters =~= added + prev.masters);
            } else {
                assert(plugin_step(prev, p, df).masters =~= added + prev.masters);
            }
        }
        assert(contributors(m, plugins, df).reverse() =~= added + contributors(
            m,
            plugins.drop_last(),
            df,
        ).reverse());
        assert(plugins_fold(m, plugins, df).masters =~= contributors(m, plugins, df).reverse()
            + m.masters);
    }
}

/// Law: a rerun never feeds on the tool's own output. Any path that names
/// the generated plugin's file name is excluded from scanning, so running
/// the merge again with the previous output present cannot pick it up.
pub proof fn lemma_rerun_excludes_own_output(p: Seq<u8>)
    ensures
        contains_seq(p, output_name()) ==> !should_scan_spec(p),
{
}

} // verus!
