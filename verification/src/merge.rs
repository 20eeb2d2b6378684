//! The merge accumulator: the claimed-identifier set, the output record
//! list, and the dependency entries, folded over the plugins in processing
//! order (the reverse of the load order).

use vstd::prelude::*;

use crate::ids::ascii_lower;
use crate::ids::bytes_eq;
use crate::ids::lower_seq;
use crate::records::CellRecord;
use crate::records::CellView;
use crate::records::LightRecord;
use crate::records::LightView;
use crate::records::Master;
use crate::records::MasterView;
use crate::records::Record;
use crate::records::RecordView;
use crate::transform::cell_result;
use crate::transform::light_result;
use crate::transform::scrub_cell;
use crate::transform::transform_light;
use crate::transform::ColorOutcome;

verus! {

/// One light of a plugin, paired with the two candidate outcomes the color
/// library computed for it (one per hue class) and its hue's bit pattern.
pub struct LightInput {
    pub light: LightRecord,
    pub hue_bits: u32,
    pub standard: ColorOutcome,
    pub colored: ColorOutcome,
}

/// The mathematical value of a light input.
pub struct LightInputView {
    pub light: LightView,
    pub hue_bits: u32,
    pub standard: ColorOutcome,
    pub colored: ColorOutcome,
}

impl View for LightInput {
    type V = LightInputView;

    open spec fn view(&self) -> LightInputView {
        LightInputView {
            light: self.light@,
            hue_bits: self.hue_bits,
            standard: self.standard,
            colored: self.colored,
        }
    }
}

/// Everything the merge reads of one plugin file: its file name and size,
/// and its cell and light records in file order.
pub struct PluginData {
    pub name: Vec<u8>,
    pub size: u64,
    pub cells: Vec<CellRecord>,
    pub lights: Vec<LightInput>,
}

/// The mathematical value of one plugin's contribution.
pub struct PluginView {
    pub name: Seq<u8>,
    pub size: u64,
    pub cells: Seq<CellView>,
    pub lights: Seq<LightInputView>,
}

/// The mathematical values of a sequence of cell records.
pub open spec fn cells_view(s: Seq<CellRecord>) -> Seq<CellView> {
    s.map_values(|c: CellRecord| c@)
}

/// The mathematical values of a sequence of light inputs.
pub open spec fn lights_view(s: Seq<LightInput>) -> Seq<LightInputView> {
    s.map_values(|l: LightInput| l@)
}

impl View for PluginData {
    type V = PluginView;

    open spec fn view(&self) -> PluginView {
        PluginView {
            name: self.name@,
            size: self.size,
            cells: cells_view(self.cells@),
            lights: lights_view(self.lights@),
        }
    }
}

/// The mathematical values of a sequence of plugins.
pub open spec fn plugins_view(s: Seq<PluginData>) -> Seq<PluginView> {
    s.map_values(|p: PluginData| p@)
}

/// The merge state: the identifiers already claimed (lowercased), the
/// records collected so far in discovery order, and the dependency entries,
/// front-most entry for the plugin processed last.
pub struct MergeState {
    pub claimed: Vec<Vec<u8>>,
    pub records: Vec<Record>,
    pub masters: Vec<Master>,
}

/// The mathematical value of the merge state.
pub struct MergeView {
    pub claimed: Seq<Seq<u8>>,
    pub records: Seq<RecordView>,
    pub masters: Seq<MasterView>,
}

impl View for MergeState {
    type V = MergeView;

    open spec fn view(&self) -> MergeView {
        MergeView {
            claimed: self.claimed@.map_values(|v: Vec<u8>| v@),
            records: self.records@.map_values(|r: Record| r@),
            masters: self.masters@.map_values(|m: Master| m@),
        }
    }
}

/// The state after considering one cell: an interior cell whose lowercased
/// identifier is still unclaimed is scrubbed and collected, and its
/// identifier claimed; any other cell is passed over.
pub open spec fn cell_step(m: MergeView, c: CellView) -> MergeView {
    let key = lower_seq(c.id);
    if c.interior && !m.claimed.contains(key) {
        MergeView {
            claimed: m.claimed.push(key),
            records: m.records.push(RecordView::Cell(cell_result(c))),
            masters: m.masters,
        }
    } else {
        m
    }
}

/// The state after considering one light: a light whose lowercased
/// identifier is still unclaimed is rewritten and collected, and its
/// identifier claimed; any other light is passed over.
pub open spec fn light_step(m: MergeView, l: LightInputView, disable_flicker: bool) -> MergeView {
    let key = lower_seq(l.light.id);
    if !m.claimed.contains(key) {
        MergeView {
            claimed: m.claimed.push(key),
            records: m.records.push(
                RecordView::Light(
                    light_result(l.light, l.hue_bits, l.standard, l.colored, disable_flicker),
                ),
            ),
            masters: m.masters,
        }
    } else {
        m
    }
}

/// The state after considering a plugin's cells in file order.
pub open spec fn cells_fold(m: MergeView, cells: Seq<CellView>) -> MergeView
    decreases cells.len(),
{
    if cells.len() == 0 {
        m
    } else {
        cell_step(cells_fold(m, cells.drop_last()), cells.last())
    }
}

/// The state after considering a plugin's lights in file order.
pub open spec fn lights_fold(
    m: MergeView,
    lights: Seq<LightInputView>,
    disable_flicker: bool,
) -> MergeView
    decreases lights.len(),
{
    if lights.len() == 0 {
        m
    } else {
        light_step(lights_fold(m, lights.drop_last(), disable_flicker), lights.last(),
        disable_flicker)
    }
}

/// The state after one whole plugin: its cells, then its lights, and — when
/// anything was collected from it — a dependency entry for it at the front.
pub open spec fn plugin_step(m: MergeView, p: PluginView, disable_flicker: bool) -> MergeView {
    let folded = lights_fold(cells_fold(m, p.cells), p.lights, disable_flicker);
    if folded.records.len() > m.records.len() {
        MergeView {
            claimed: folded.claimed,
            records: folded.records,
            masters: seq![MasterView { name: p.name, size: p.size }] + folded.masters,
        }
    } else {
        folded
    }
}

/// The state after a sequence of plugins, processed in the order given.
pub open spec fn plugins_fold(
    m: MergeView,
    plugins: Seq<PluginView>,
    disable_flicker: bool,
) -> MergeView
    decreases plugins.len(),
{
    if plugins.len() == 0 {
        m
    } else {
        plugin_step(plugins_fold(m, plugins.drop_last(), disable_flicker), plugins.last(),
        disable_flicker)
    }
}

impl MergeState {
    /// The empty state a run starts from.
    pub fn new() -> (r: MergeState)
        ensures
            r@.claimed == Seq::<Seq<u8>>::empty(),
            r@.records == Seq::<RecordView>::empty(),
            r@.masters == Seq::<MasterView>::empty(),
    {
        let r = MergeState { claimed: Vec::new(), records: Vec::new(), masters: Vec::new() };
        proof {
            assert(r@.claimed =~= Seq::<Seq<u8>>::empty());
            assert(r@.records =~= Seq::<RecordView>::empty());
            assert(r@.masters =~= Seq::<MasterView>::empty());
        }
        r
    }

    /// Whether an identifier (already lowercased) has been claimed.
    pub fn is_claimed(&self, key: &Vec<u8>) -> (r: bool)
        ensures
            r == self@.claimed.contains(key@),
    {
        let mut i: usize = 0;
        while i < self.claimed.len()
            invariant
                i <= self.claimed@.len(),
                forall|j: int| 0 <= j < i ==> self@.claimed[j] != key@,
            decreases self.claimed.len() - i,
        {
            if bytes_eq(&self.claimed[i], key) {
                proof {
                    assert(self@.claimed[i as int] == key@);
                }
                return true;
            }
            i = i + 1;
        }
        false
    }

    /// Considers one cell record; see [`cell_step`].
    pub fn add_cell(&mut self, cell: &CellRecord)
        ensures
            final(self)@ == cell_step(old(self)@, cell@),
    {
        let key = ascii_lower(&cell.id);
        if cell.interior && !self.is_claimed(&key) {
            let ghost before = self@;
            self.records.push(Record::Cell(scrub_cell(cell)));
            self.claimed.push(key);
            proof {
                assert(self@.claimed =~= before.claimed.push(lower_seq(cell@.id)));
                assert(self@.records =~= before.records.push(RecordView::Cell(cell_result(
                cell@))));
                assert(self@.masters =~= before.masters);
            }
        }
    }

    /// Considers one light record; see [`light_step`].
    pub fn add_light(&mut self, input: &LightInput, disable_flicker: bool)
        ensures
            final(self)@ == light_step(old(self)@, input@, disable_flicker),
    {
        let key = ascii_lower(&input.light.id);
        if !self.is_claimed(&key) {
            let ghost before = self@;
            let lit = transform_light(
                &input.light,
                input.hue_bits,
                input.standard,
                input.colored,
                disable_flicker,
            );
            self.records.push(Record::Light(lit));
            self.claimed.push(key);
            proof {
                assert(self@.claimed =~= before.claimed.push(lower_seq(input@.light.id)));
                assert(self@.records =~= before.records.push(
                    RecordView::Light(
                        light_result(
                            input@.light,
                            input@.hue_bits,
                            input@.standard,
                            input@.colored,
                            disable_flicker,
                        ),
                    ),
                ));
                assert(self@.masters =~= before.masters);
            }
        }
    }

    /// Folds one whole plugin into the state; see [`plugin_step`].
    pub fn merge_plugin(&mut self, plugin: &PluginData, disable_flicker: bool)
        ensures
            final(self)@ == plugin_step(old(self)@, plugin@, disable_flicker),
    {
        let ghost m0 = self@;
        let before = self.records.len();
        proof {
            assert(m0.records.len() == before);
        }
        let mut i: usize = 0;
        while i < plugin.cells.len()
            invariant
                i <= plugin.cells@.len(),
                self@ == cells_fold(m0, cells_view(plugin.cells@).take(i as int)),
            decreases plugin.cells.len() - i,
        {
            self.add_cell(&plugin.cells[i]);
            i = i + 1;
            proof {
                let cv = cells_view(plugin.cells@);
                assert(cv.take(i as int).drop_last() =~= cv.take(i - 1));
                assert(cv.take(i as int).last() == cv[i - 1]);
            }
        }
        proof {
            assert(cells_view(plugin.cells@).take(plugin.cells@.len() as int) =~= cells_view(
                plugin.cells@,
            ));
        }
        let ghost m1 = cells_fold(m0, cells_view(plugin.cells@));
        let mut k: usize = 0;
        while k < plugin.lights.len()
            invariant
                k <= plugin.lights@.len(),
                self@ == lights_fold(m1, lights_view(plugin.lights@).take(k as int),
                disable_flicker),
            decreases plugin.lights.len() - k,
        {
            self.add_light(&plugin.lights[k], disable_flicker);
            k = k + 1;
            proof {
                let lv = lights_view(plugin.lights@);
                assert(lv.take(k as int).drop_last() =~= lv.take(k - 1));
                assert(lv.take(k as int).last() == lv[k - 1]);
            }
        }
        proof {
            assert(lights_view(plugin.lights@).take(plugin.lights@.len() as int) =~= lights_view(
                plugin.lights@,
            ));
        }
        if self.records.len() > before {
            let entry = Master { name: plugin.name.clone(), size: plugin.size };
            self.masters.insert(0, entry);
            proof {
                let folded = lights_fold(m1, lights_view(plugin.lights@), disable_flicker);
                assert(self@.masters =~= seq![
                    MasterView { name: plugin@.name, size: plugin@.size },
                ] + folded.masters);
            }
        }
    }

    /// Folds a whole run's plugins, in processing order (the reverse of the
    /// load order); see [`plugins_fold`].
    pub fn merge_all(&mut self, plugins: &Vec<PluginData>, disable_flicker: bool)
        ensures
            final(self)@ == plugins_fold(old(self)@, plugins_view(plugins@), disable_flicker),
    {
        let ghost m0 = self@;
        let mut i: usize = 0;
        while i < plugins.len()
            invariant
                i <= plugins@.len(),
                self@ == plugins_fold(m0, plugins_view(plugins@).take(i as int),
                disable_flicker),
            decreases plugins.len() - i,
        {
            self.merge_plugin(&plugins[i], disable_flicker);
            i = i + 1;
            proof {
                let pv = plugins_view(plugins@);
                assert(pv.take(i as int).drop_last() =~= pv.take(i - 1));
                assert(pv.take(i as int).last() == pv[i - 1]);
            }
        }
        proof {
            assert(plugins_view(plugins@).take(plugins@.len() as int) =~= plugins_view(
                plugins@,
            ));
        }
    }
}

/// The fatal error of a run: an empty plugin list leaves nothing to merge,
/// and the run aborts before any output is assembled.
#[derive(Clone, Copy, PartialEq, Eq, Structural, Debug)]
pub enum MergeError {
    NoPlugins,
}

/// Rejects an empty plugin list; the run aborts before any output exists.
pub fn check_plugin_count(n_plugins: usize) -> (r: Result<(), MergeError>)
    ensures
        r == (if n_plugins > 0 {
            Ok::<(), MergeError>(())
        } else {
            Err::<(), MergeError>(MergeError::NoPlugins)
        }),
{
    if n_plugins > 0 {
        Ok(())
    } else {
        Err(MergeError::NoPlugins)
    }
}

} // verus!
