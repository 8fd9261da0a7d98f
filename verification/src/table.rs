//! Loading the frequency table from parsed entries.
//!
//! An entry carries a frequency (kHz), a voltage (microvolt) and a DDR OPP.
//! Entries with an invalid voltage are dropped, never stored; the surviving
//! frequencies form a strictly ascending list, and the voltage and DDR maps
//! take the last entry of each frequency. An empty result is a hard error
//! and leaves the state untouched.

use std::collections::HashMap;
use vstd::prelude::*;

use crate::gpu::GPU;

verus! {

broadcast use vstd::std_specs::hash::group_hash_axioms;

/// One row of the frequency table file.
#[derive(Clone, Copy, Debug, PartialEq, Eq, Structural)]
pub struct FreqTableEntry {
    /// Frequency in kHz.
    pub freq: i64,
    /// Voltage in microvolt; must be a nonzero multiple of 625.
    pub volt: i64,
    /// DDR OPP coupled to this frequency.
    pub ddr_opp: i64,
}

/// Why a table failed to load.
#[derive(Clone, Copy, Debug, PartialEq, Eq, Structural)]
pub enum TableError {
    /// No entry carried a valid voltage.
    Empty,
}

/// A voltage is valid when it is a nonzero multiple of 625 microvolt.
pub open spec fn spec_volt_is_valid(v: i64) -> bool {
    v != 0 && v as int % 625 == 0
}

pub fn volt_is_valid(v: i64) -> (r: bool)
    ensures
        r == spec_volt_is_valid(v),
{
    v != 0 && v % 625 == 0
}

/// Strictly ascending order: each frequency occurs once.
pub open spec fn strictly_sorted(s: Seq<i64>) -> bool {
    forall|i: int, j: int| 0 <= i < j < s.len() ==> s[i] < s[j]
}

/// The frequency-to-voltage map of a list of entries: invalid entries are
/// dropped, and of several entries with one frequency the last wins.
pub open spec fn volt_map_of(entries: Seq<FreqTableEntry>) -> Map<i64, i64>
    decreases entries.len(),
{
    if entries.len() == 0 {
        Map::empty()
    } else {
        let m = volt_map_of(entries.drop_last());
        let e = entries.last();
        if spec_volt_is_valid(e.volt) {
            m.insert(e.freq, e.volt)
        } else {
            m
        }
    }
}

/// The frequency-to-DDR map of a list of entries, built the same way.
pub open spec fn dram_map_of(entries: Seq<FreqTableEntry>) -> Map<i64, i64>
    decreases entries.len(),
{
    if entries.len() == 0 {
        Map::empty()
    } else {
        let m = dram_map_of(entries.drop_last());
        let e = entries.last();
        if spec_volt_is_valid(e.volt) {
            m.insert(e.freq, e.ddr_opp)
        } else {
            m
        }
    }
}

/// Whether some prefix entry is valid and carries frequency `f`.
pub open spec fn valid_entry_with_freq(entries: Seq<FreqTableEntry>, f: i64) -> bool {
    exists|i: int|
        0 <= i < entries.len() && spec_volt_is_valid((#[trigger] entries[i]).volt) && entries[i].freq
            == f
}

/// Insert `v` into a strictly sorted list, keeping it strictly sorted;
/// a value already present is left alone.
fn insert_sorted_unique(list: &mut Vec<i64>, v: i64)
    requires
        strictly_sorted(old(list)@),
        old(list)@.len() < 0x7fffffffffffffff,
    ensures
        strictly_sorted(final(list)@),
        forall|f: i64| final(list)@.contains(f) <==> (old(list)@.contains(f) || f == v),
        final(list)@.len() <= old(list)@.len() + 1,
{
    let ghost s0 = list@;
    let mut j: usize = 0;
    while j < list.len() && list[j] < v
        invariant
            list@ == s0,
            strictly_sorted(s0),
            0 <= j <= s0.len(),
            forall|i: int| 0 <= i < j ==> s0[i] < v,
        decreases s0.len() - j,
    {
        j += 1;
    }
    if j < list.len() && list[j] == v {
        assert(list@.contains(v));
        return ;
    }
    list.insert(j, v);
    proof {
        let s1 = list@;
        assert(s1 == s0.insert(j as int, v));
        assert(s1.len() == s0.len() + 1);
        assert(forall|k: int| 0 <= k < j ==> s1[k] == s0[k]);
        assert(s1[j as int] == v);
        assert(forall|k: int| j < k < s1.len() ==> s1[k] == s0[k - 1]);
        assert(forall|i: int| j <= i < s0.len() ==> s0[i] > v);
        assert forall|f: i64| s1.contains(f) implies (s0.contains(f) || f == v) by {
            let k = choose|k: int| 0 <= k < s1.len() && s1[k] == f;
            if k < j {
                assert(s0[k] == f);
            } else if k > j {
                assert(s0[k - 1] == f);
            }
        }
        assert forall|f: i64| s0.contains(f) || f == v implies s1.contains(f) by {
            if s0.contains(f) {
                let k = choose|k: int| 0 <= k < s0.len() && s0[k] == f;
                if k < j {
                    assert(s1[k] == f);
                } else {
                    assert(s1[k + 1] == f);
                }
            } else {
                assert(s1[j as int] == f);
            }
        }
    }
}

/// Load a parsed frequency table into the state.
///
/// Entries whose voltage is not a nonzero multiple of 625 are dropped and
/// never stored. The surviving frequencies replace the table as a strictly
/// ascending list, and the voltage and DDR maps take, for each frequency,
/// the values of its last surviving entry. When no entry survives, the
/// call fails and the state is left untouched: an empty table would leave
/// the governor without any operating point to choose.
pub fn load_freq_table(gpu: &mut GPU, entries: &Vec<FreqTableEntry>) -> (r: Result<
    (),
    TableError,
>)
    requires
        entries@.len() < 0x7fffffffffffffff,
    ensures
        r is Ok <==> (exists|i: int|
            0 <= i < entries@.len() && spec_volt_is_valid(entries@[i].volt)),
        r is Err ==> *final(gpu) == *old(gpu),
        r is Ok ==> {
            let g1 = *final(gpu);
            &&& strictly_sorted(g1.frequency_manager.config_list@)
            &&& forall|f: i64|
                g1.frequency_manager.config_list@.contains(f) <==> valid_entry_with_freq(
                    entries@,
                    f,
                )
            &&& g1.frequency_manager.freq_volt@ == volt_map_of(entries@)
            &&& g1.frequency_manager.freq_dram@ == dram_map_of(entries@)
            &&& forall|f: i64|
                g1.frequency_manager.freq_volt@.contains_key(f) ==> spec_volt_is_valid(
                    #[trigger] g1.frequency_manager.freq_volt@[f],
                )
            &&& g1.frequency_manager.cur_freq == old(gpu).frequency_manager.cur_freq
            &&& g1.frequency_manager.cur_freq_idx == old(gpu).frequency_manager.cur_freq_idx
            &&& g1.frequency_manager.cur_volt == old(gpu).frequency_manager.cur_volt
            &&& g1.frequency_manager.gpuv2 == old(gpu).frequency_manager.gpuv2
            &&& g1.frequency_manager.v2_supported_freqs@ == old(
                gpu,
            ).frequency_manager.v2_supported_freqs@
            &&& *final(gpu) == (GPU {
                frequency_manager: g1.frequency_manager,
                ..*old(gpu)
            })
            &&& g1.frequency_manager.wf()
        },
        old(gpu).wf() ==> final(gpu).wf(),
    {
        let mut new_list: Vec<i64> = Vec::new();
        let mut new_fv: HashMap<i64, i64> = HashMap::new();
        let mut new_fd: HashMap<i64, i64> = HashMap::new();
        let mut k: usize = 0;
        while k < entries.len()
            invariant
                entries@.len() < 0x7fffffffffffffff,
                0 <= k <= entries@.len(),
                strictly_sorted(new_list@),
                new_list@.len() <= k,
                forall|f: i64|
                    new_list@.contains(f) <==> valid_entry_with_freq(entries@.take(k as int), f),
                new_fv@ == volt_map_of(entries@.take(k as int)),
                new_fd@ == dram_map_of(entries@.take(k as int)),
            decreases entries@.len() - k,
        {
            let e = entries[k];
            proof {
                assert(entries@.take(k as int + 1).drop_last() =~= entries@.take(k as int));
                assert(entries@.take(k as int + 1).last() == entries@[k as int]);
            }
            if volt_is_valid(e.volt) {
                insert_sorted_unique(&mut new_list, e.freq);
                new_fv.insert(e.freq, e.volt);
                new_fd.insert(e.freq, e.ddr_opp);
                proof {
                    assert forall|f: i64| new_list@.contains(f) implies valid_entry_with_freq(
                        entries@.take(k as int + 1),
                        f,
                    ) by {
                        if f == e.freq {
                            assert(entries@.take(k as int + 1)[k as int] == e);
                        } else {
                            let i = choose|i: int|
                                0 <= i < entries@.take(k as int).len() && spec_volt_is_valid(
                                    (#[trigger] entries@.take(k as int)[i]).volt,
                                ) && entries@.take(k as int)[i].freq == f;
                            assert(entries@.take(k as int + 1)[i] == entries@.take(k as int)[i]);
                        }
                    }
                    assert forall|f: i64|
                        valid_entry_with_freq(entries@.take(k as int + 1), f) implies new_list@
                        .contains(f) by {
                        let i = choose|i: int|
                            0 <= i < entries@.take(k as int + 1).len() && spec_volt_is_valid(
                                (#[trigger] entries@.take(k as int + 1)[i]).volt,
                            ) && entries@.take(k as int + 1)[i].freq == f;
                        if i < k {
                            assert(entries@.take(k as int)[i] == entries@.take(k as int + 1)[i]);
                        }
                    }
                }
            } else {
                proof {
                    assert forall|f: i64|
                        valid_entry_with_freq(entries@.take(k as int + 1), f) implies
                        valid_entry_with_freq(entries@.take(k as int), f) by {
                        let i = choose|i: int|
                            0 <= i < entries@.take(k as int + 1).len() && spec_volt_is_valid(
                                (#[trigger] entries@.take(k as int + 1)[i]).volt,
                            ) && entries@.take(k as int + 1)[i].freq == f;
                        assert(i < k);
                        assert(entries@.take(k as int)[i] == entries@.take(k as int + 1)[i]);
                    }
                    assert forall|f: i64|
                        valid_entry_with_freq(entries@.take(k as int), f) implies
                        valid_entry_with_freq(entries@.take(k as int + 1), f) by {
                        let i = choose|i: int|
                            0 <= i < entries@.take(k as int).len() && spec_volt_is_valid(
                                (#[trigger] entries@.take(k as int)[i]).volt,
                            ) && entries@.take(k as int)[i].freq == f;
                        assert(entries@.take(k as int + 1)[i] == entries@.take(k as int)[i]);
                    }
                }
            }
            k += 1;
        }
        proof {
            assert(entries@.take(entries@.len() as int) =~= entries@);
        }
        if new_list.len() == 0 {
            proof {
                assert forall|i: int|
                    0 <= i < entries@.len() implies !spec_volt_is_valid(entries@[i].volt) by {
                    if spec_volt_is_valid(entries@[i].volt) {
                        assert(valid_entry_with_freq(entries@, entries@[i].freq));
                        assert(new_list@.contains(entries@[i].freq));
                    }
                }
            }
            return Err(TableError::Empty);
        }
        proof {
            let f0 = new_list@[0];
            assert(new_list@.contains(f0));
            lemma_volt_map_valid(entries@);
        }
        gpu.frequency_manager.config_list = new_list;
        gpu.frequency_manager.freq_volt = new_fv;
        gpu.frequency_manager.freq_dram = new_fd;
        Ok(())
    }

/// Every value of the voltage map built from a list of entries is a valid
/// voltage: invalid entries never enter the map.
pub proof fn lemma_volt_map_valid(entries: Seq<FreqTableEntry>)
    ensures
        forall|f: i64|
            volt_map_of(entries).contains_key(f) ==> spec_volt_is_valid(
                #[trigger] volt_map_of(entries)[f],
            ),
    decreases entries.len(),
{
    if entries.len() > 0 {
        lemma_volt_map_valid(entries.drop_last());
        let m = volt_map_of(entries.drop_last());
        let e = entries.last();
        assert forall|f: i64| volt_map_of(entries).contains_key(f) implies spec_volt_is_valid(
            volt_map_of(entries)[f],
        ) by {
            if spec_volt_is_valid(e.volt) {
                if f != e.freq {
                    assert(m.contains_key(f));
                    assert(volt_map_of(entries)[f] == m[f]);
                }
            } else {
                assert(m.contains_key(f));
            }
        }
    }
}

} // verus!
