use crate::waveform::Waveform;
use vstd::prelude::*;

verus! {

/// Parameters a tone sounds with, captured from the global settings at
/// the moment its key was pressed: the volume level (in twentieths of
/// full amplitude) and the waveform shape.
#[derive(Clone, Copy, PartialEq, Eq, Structural, Debug)]
pub struct ToneParams {
    pub amp: u8,
    pub wave: Waveform,
}

/// One currently sounding tone: the frequency key together with its
/// parameters. The key is the bit pattern of the tone's frequency,
/// computed once per musical key by a fixed formula, so repeated presses
/// of the same note always produce the same key.
#[derive(Clone, Copy, PartialEq, Eq, Structural, Debug)]
pub struct ToneEntry {
    pub freq: u64,
    pub params: ToneParams,
}

/// The mapping a sequence of tone entries stands for, later entries
/// overriding earlier ones with the same frequency.
pub open spec fn map_of(s: Seq<ToneEntry>) -> Map<u64, ToneParams>
    decreases s.len(),
{
    if s.len() == 0 {
        Map::empty()
    } else {
        map_of(s.drop_last()).insert(s.last().freq, s.last().params)
    }
}

/// No two entries of the sequence share a frequency.
pub open spec fn unique_freqs(s: Seq<ToneEntry>) -> bool {
    forall|i: int, j: int| 0 <= i < j < s.len() ==> s[i].freq != s[j].freq
}

/// A frequency is in the mapping exactly when some entry carries it.
pub proof fn lemma_map_of_contains(s: Seq<ToneEntry>, freq: u64)
    ensures
        map_of(s).contains_key(freq) <==> exists|i: int|
            0 <= i < s.len() && s[i].freq == freq,
    decreases s.len(),
{
    if s.len() > 0 {
        lemma_map_of_contains(s.drop_last(), freq);
        if s.last().freq == freq {
            assert(s[s.len() - 1].freq == freq);
        } else if map_of(s).contains_key(freq) {
            let i = choose|i: int| 0 <= i < s.drop_last().len() && s.drop_last()[i].freq
                == freq;
            assert(s[i].freq == freq);
        } else if exists|i: int| 0 <= i < s.len() && s[i].freq == freq {
            let i = choose|i: int| 0 <= i < s.len() && s[i].freq == freq;
            assert(s.drop_last()[i].freq == freq);
        }
    }
}

/// Each entry of a duplicate-free sequence appears in its mapping with
/// exactly its own parameters.
pub proof fn lemma_map_of_entry(s: Seq<ToneEntry>, i: int)
    requires
        unique_freqs(s),
        0 <= i < s.len(),
    ensures
        map_of(s).contains_key(s[i].freq),
        map_of(s)[s[i].freq] == s[i].params,
    decreases s.len(),
{
    if i == s.len() - 1 {
    } else {
        assert(unique_freqs(s.drop_last())) by {
            assert(forall|a: int, b: int|
                0 <= a < b < s.drop_last().len() ==> s.drop_last()[a] == s[a]
                    && s.drop_last()[b] == s[b]);
        }
        lemma_map_of_entry(s.drop_last(), i);
        assert(s.drop_last()[i] == s[i]);
        assert(s.last().freq != s[i].freq);
    }
}

/// Removing the one entry that carries a frequency removes exactly that
/// frequency from the mapping.
pub proof fn lemma_map_of_remove(s: Seq<ToneEntry>, i: int)
    requires
        unique_freqs(s),
        0 <= i < s.len(),
    ensures
        map_of(s.remove(i)) == map_of(s).remove(s[i].freq),
    decreases s.len(),
{
    let freq = s[i].freq;
    if i == s.len() - 1 {
        assert(s.remove(i) =~= s.drop_last());
        assert(!map_of(s.drop_last()).contains_key(freq)) by {
            lemma_map_of_contains(s.drop_last(), freq);
            assert(forall|j: int|
                0 <= j < s.drop_last().len() ==> s.drop_last()[j] == s[j]);
        }
        assert(map_of(s.drop_last()).insert(freq, s[i].params).remove(freq)
            =~= map_of(s.drop_last()));
    } else {
        assert(unique_freqs(s.drop_last())) by {
            assert(forall|a: int, b: int|
                0 <= a < b < s.drop_last().len() ==> s.drop_last()[a] == s[a]
                    && s.drop_last()[b] == s[b]);
        }
        assert(s.drop_last()[i] == s[i]);
        lemma_map_of_remove(s.drop_last(), i);
        assert(s.remove(i).drop_last() =~= s.drop_last().remove(i));
        assert(s.remove(i).last() == s.last());
        assert(s.last().freq != freq);
        assert(map_of(s.drop_last()).remove(freq).insert(s.last().freq, s.last().params)
            =~= map_of(s.drop_last()).insert(s.last().freq, s.last().params).remove(
            freq,
        ));
    }
}

/// A duplicate-free sequence keeps its mapping's size: the count of
/// distinct sounding tones is the count of stored entries.
pub proof fn lemma_map_of_len(s: Seq<ToneEntry>)
    requires
        unique_freqs(s),
    ensures
        map_of(s).dom().finite(),
        map_of(s).len() == s.len(),
    decreases s.len(),
{
    broadcast use vstd::set::group_set_axioms;

    if s.len() > 0 {
        assert(unique_freqs(s.drop_last())) by {
            assert(forall|a: int, b: int|
                0 <= a < b < s.drop_last().len() ==> s.drop_last()[a] == s[a]
                    && s.drop_last()[b] == s[b]);
        }
        lemma_map_of_len(s.drop_last());
        assert(!map_of(s.drop_last()).contains_key(s.last().freq)) by {
            lemma_map_of_contains(s.drop_last(), s.last().freq);
            assert(forall|j: int|
                0 <= j < s.drop_last().len() ==> s.drop_last()[j] == s[j]);
        }
    }
}

/// The registry of currently sounding tones: at most one entry per
/// distinct frequency. Its abstract value is the mapping from frequency
/// key to the parameters captured at press time.
pub struct ToneRegistry {
    entries: Vec<ToneEntry>,
}

impl View for ToneRegistry {
    type V = Map<u64, ToneParams>;

    closed spec fn view(&self) -> Map<u64, ToneParams> {
        map_of(self.entries@)
    }
}

impl ToneRegistry {
    /// Well-formedness: no frequency is stored twice.
    pub closed spec fn wf(&self) -> bool {
        unique_freqs(self.entries@)
    }

    /// An empty registry: nothing sounds.
    pub fn new() -> (r: ToneRegistry)
        ensures
            r.wf(),
            r@ == Map::<u64, ToneParams>::empty(),
    {
        let r = ToneRegistry { entries: Vec::new() };
        proof {
            assert(r.entries@.len() == 0);
        }
        r
    }

    /// Index of the entry carrying `freq`, if one does.
    fn find_index(&self, freq: u64) -> (r: Option<usize>)
        ensures
            match r {
                Some(i) => i < self.entries@.len() && self.entries@[i as int].freq
                    == freq,
                None => forall|j: int|
                    0 <= j < self.entries@.len() ==> self.entries@[j].freq != freq,
            },
    {
        let mut i: usize = 0;
        while i < self.entries.len()
            invariant
                i <= self.entries@.len(),
                forall|j: int| 0 <= j < i ==> self.entries@[j].freq != freq,
            decreases self.entries@.len() - i,
        {
            if self.entries[i].freq == freq {
                return Some(i);
            }
            i = i + 1;
        }
        None
    }

    /// Upsert: after the call the registry maps `freq` to exactly the
    /// given parameters, and no other tone is disturbed. Re-pressing a
    /// held key therefore just overwrites its amplitude and waveform.
    pub fn insert(&mut self, freq: u64, amp: u8, wave: Waveform)
        requires
            old(self).wf(),
        ensures
            final(self).wf(),
            final(self)@ == old(self)@.insert(freq, ToneParams { amp, wave }),
    {
        let params = ToneParams { amp, wave };
        let ghost m0 = self@;
        match self.find_index(freq) {
            Some(i) => {
                let ghost s0 = self.entries@;
                proof {
                    lemma_map_of_remove(s0, i as int);
                }
                self.entries.remove(i);
                proof {
                    assert(unique_freqs(s0.remove(i as int))) by {
                        assert(forall|a: int, b: int|
                            0 <= a < b < s0.remove(i as int).len() ==> s0.remove(
                                i as int,
                            )[a].freq != s0.remove(i as int)[b].freq) by {
                            assert(forall|a: int|
                                0 <= a < s0.remove(i as int).len() ==> s0.remove(
                                    i as int,
                                )[a] == (if a < i { s0[a] } else {
                                    s0[a + 1]
                                }));
                        }
                    }
                    assert(forall|j: int|
                        0 <= j < s0.remove(i as int).len() ==> s0.remove(i as int)[j].freq
                            != freq) by {
                        assert(forall|a: int|
                            0 <= a < s0.remove(i as int).len() ==> s0.remove(i as int)[a]
                                == (if a < i { s0[a] } else {
                                s0[a + 1]
                            }));
                    }
                }
                let ghost s1 = self.entries@;
                self.entries.push(ToneEntry { freq, params });
                proof {
                    assert(self.entries@.drop_last() =~= s1);
                    assert(self@ == map_of(s1).insert(freq, params));
                    assert(m0.remove(freq).insert(freq, params) =~= m0.insert(
                        freq,
                        params,
                    ));
                }
            },
            None => {
                let ghost s0 = self.entries@;
                self.entries.push(ToneEntry { freq, params });
                proof {
                    assert(self.entries@.drop_last() =~= s0);
                    assert(forall|a: int, b: int|
                        0 <= a < b < self.entries@.len() ==> self.entries@[a].freq
                            != self.entries@[b].freq) by {
                        assert(forall|a: int|
                            0 <= a < s0.len() ==> self.entries@[a] == s0[a]);
                    }
                }
            },
        }
    }

    /// Release: after the call no tone sounds under `freq`; removing an
    /// absent frequency is a no-op, and no other tone is disturbed.
    pub fn remove(&mut self, freq: u64)
        requires
            old(self).wf(),
        ensures
            final(self).wf(),
            final(self)@ == old(self)@.remove(freq),
    {
        match self.find_index(freq) {
            Some(i) => {
                let ghost s0 = self.entries@;
                proof {
                    lemma_map_of_remove(s0, i as int);
                }
                self.entries.remove(i);
                proof {
                    assert(unique_freqs(s0.remove(i as int))) by {
                        assert(forall|a: int|
                            0 <= a < s0.remove(i as int).len() ==> s0.remove(i as int)[a]
                                == (if a < i { s0[a] } else {
                                s0[a + 1]
                            }));
                    }
                }
            },
            None => {
                proof {
                    lemma_map_of_contains(self.entries@, freq);
                    assert(self@.remove(freq) =~= self@);
                }
            },
        }
    }

    /// The parameters `freq` currently sounds with, if it does.
    pub fn get(&self, freq: u64) -> (r: Option<ToneParams>)
        requires
            self.wf(),
        ensures
            match r {
                Some(p) => self@.contains_key(freq) && self@[freq] == p,
                None => !self@.contains_key(freq),
            },
    {
        match self.find_index(freq) {
            Some(i) => {
                proof {
                    lemma_map_of_entry(self.entries@, i as int);
                }
                Some(self.entries[i].params)
            },
            None => {
                proof {
                    lemma_map_of_contains(self.entries@, freq);
                }
                None
            },
        }
    }

    /// How many distinct tones sound right now.
    pub fn len(&self) -> (n: usize)
        requires
            self.wf(),
        ensures
            n == self@.len(),
    {
        proof {
            lemma_map_of_len(self.entries@);
        }
        self.entries.len()
    }

    /// The renderer's view of one uncontended read: every currently
    /// sounding tone exactly once, each with the parameters captured at
    /// its press, and nothing else. The mix is the sum of these tones'
    /// waveforms, with no limiting applied.
    pub fn snapshot(&self) -> (r: Vec<ToneEntry>)
        requires
            self.wf(),
        ensures
            unique_freqs(r@),
            forall|i: int|
                0 <= i < r@.len() ==> self@.contains_key(#[trigger] r@[i].freq)
                    && self@[r@[i].freq] == r@[i].params,
            forall|f: u64|
                self@.contains_key(f) ==> exists|i: int|
                    0 <= i < r@.len() && r@[i].freq == f,
    {
        let mut r: Vec<ToneEntry> = Vec::new();
        let mut i: usize = 0;
        while i < self.entries.len()
            invariant
                i <= self.entries@.len(),
                r@ == self.entries@.take(i as int),
            decreases self.entries@.len() - i,
        {
            r.push(self.entries[i]);
            proof {
                assert(r@ =~= self.entries@.take(i + 1));
            }
            i = i + 1;
        }
        proof {
            assert(r@ =~= self.entries@);
            assert(forall|i: int|
                0 <= i < r@.len() ==> self@.contains_key(#[trigger] r@[i].freq)
                    && self@[r@[i].freq] == r@[i].params) by {
                assert forall|i: int| 0 <= i < r@.len() implies self@.contains_key(
                    #[trigger] r@[i].freq,
                ) && self@[r@[i].freq] == r@[i].params by {
                    lemma_map_of_entry(self.entries@, i);
                }
            }
            lemma_map_of_contains_all(self.entries@);
        }
        r
    }
}

/// Every frequency of the mapping is carried by some entry.
proof fn lemma_map_of_contains_all(s: Seq<ToneEntry>)
    ensures
        forall|f: u64|
            map_of(s).contains_key(f) ==> exists|i: int|
                0 <= i < s.len() && s[i].freq == f,
{
    assert forall|f: u64| map_of(s).contains_key(f) implies exists|i: int|
        0 <= i < s.len() && s[i].freq == f by {
        lemma_map_of_contains(s, f);
    }
}

/// Idempotence law: recording the same tone twice with the same
/// parameters is no different from recording it once.
pub proof fn lemma_insert_idempotent(m: Map<u64, ToneParams>, freq: u64, params: ToneParams)
    ensures
        m.insert(freq, params).insert(freq, params) == m.insert(freq, params),
{
    assert(m.insert(freq, params).insert(freq, params) =~= m.insert(freq, params));
}

/// Press-then-release law: inserting a frequency that was not sounding
/// and then removing it, with nothing in between, restores the registry
/// value exactly.
pub proof fn lemma_insert_then_remove(m: Map<u64, ToneParams>, freq: u64, params: ToneParams)
    requires
        !m.contains_key(freq),
    ensures
        m.insert(freq, params).remove(freq) == m,
{
    assert(m.insert(freq, params).remove(freq) =~= m);
}

/// Press-then-release from silence leaves the registry empty.
pub proof fn lemma_insert_then_remove_empty(freq: u64, params: ToneParams)
    ensures
        Map::<u64, ToneParams>::empty().insert(freq, params).remove(freq) == Map::<
            u64,
            ToneParams,
        >::empty(),
{
    lemma_insert_then_remove(Map::<u64, ToneParams>::empty(), freq, params);
}

} // verus!
