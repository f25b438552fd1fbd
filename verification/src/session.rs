//! The session layer over a raw plugin: an index from form id to the
//! position of the record carrying it, across all decoded groups, and
//! lookups by form id and by top-level kind.

use std::collections::HashMap;
use vstd::prelude::*;

use crate::parser;
use crate::parser::{le_bytes_of_u32, GroupView, TypeCode};

verus! {

broadcast use vstd::std_specs::hash::group_hash_axioms;

/// Position of a record inside a decoded plugin: which top-level group
/// it stands in, and where in that group's record run.
#[derive(Debug, Clone, Copy, PartialEq, Eq, Structural)]
pub struct RecordIndex {
    pub group_pos: usize,
    pub record_pos: usize,
}

/// The map from form id to record position that a walk over all groups
/// and records in order produces; a later record with the same form id
/// replaces an earlier one, as inserting into a map does.
pub open spec fn s_record_map(
    m: Map<u32, RecordIndex>,
    groups: Seq<GroupView>,
    gi: int,
    ri: int,
) -> Map<u32, RecordIndex>
    decreases groups.len() - gi, (if 0 <= gi < groups.len() {
        groups[gi].records.len() - ri
    } else {
        0
    }),
    when 0 <= gi <= groups.len() && 0 <= ri
{
    if gi >= groups.len() {
        m
    } else if ri >= groups[gi].records.len() {
        s_record_map(m, groups, gi + 1, 0)
    } else {
        s_record_map(
            m.insert(
                groups[gi].records[ri].header.id,
                RecordIndex { group_pos: gi as usize, record_pos: ri as usize },
            ),
            groups,
            gi,
            ri + 1,
        )
    }
}

/// Validity of a record index map for a run of groups: every entry
/// points inside the groups, at a record that carries the entry's form
/// id.
pub open spec fn record_map_wf(m: Map<u32, RecordIndex>, groups: Seq<GroupView>) -> bool {
    forall|id: u32|
        m.contains_key(id) ==> {
            &&& 0 <= (#[trigger] m[id]).group_pos < groups.len()
            &&& 0 <= m[id].record_pos < groups[m[id].group_pos as int].records.len()
            &&& groups[m[id].group_pos as int].records[m[id].record_pos as int].header.id == id
        }
}

/// The walk of [`s_record_map`] only adds valid entries.
pub proof fn lemma_record_map_wf(m: Map<u32, RecordIndex>, groups: Seq<GroupView>, gi: int, ri: int)
    requires
        0 <= gi <= groups.len(),
        0 <= ri,
        gi < groups.len() ==> ri <= groups[gi].records.len(),
        groups.len() <= usize::MAX,
        forall|g: int| 0 <= g < groups.len() ==> (#[trigger] groups[g]).records.len()
            <= usize::MAX,
        record_map_wf(m, groups),
    ensures
        record_map_wf(s_record_map(m, groups, gi, ri), groups),
    decreases groups.len() - gi, (if 0 <= gi < groups.len() {
        groups[gi].records.len() - ri
    } else {
        0
    }),
{
    if gi >= groups.len() {
    } else if ri >= groups[gi].records.len() {
        lemma_record_map_wf(m, groups, gi + 1, 0);
    } else {
        let new_id = groups[gi].records[ri].header.id;
        let m2 = m.insert(new_id, RecordIndex { group_pos: gi as usize, record_pos: ri as usize });
        assert forall|id2: u32| m2.contains_key(id2) implies {
            &&& 0 <= (#[trigger] m2[id2]).group_pos < groups.len()
            &&& 0 <= m2[id2].record_pos < groups[m2[id2].group_pos as int].records.len()
            &&& groups[m2[id2].group_pos as int].records[m2[id2].record_pos as int].header.id
                == id2
        } by {
            if id2 != new_id {
                assert(m.contains_key(id2) && m2[id2] == m[id2]);
            }
        }
        lemma_record_map_wf(m2, groups, gi, ri + 1);
    }
}

/// Build the index from form id to record position by walking every
/// group and every record in order; a later record with the same form
/// id replaces an earlier one.
#[verifier::loop_isolation(false)]
pub fn generate_maps(plugin_data: &parser::Plugin) -> (m: HashMap<u32, RecordIndex>)
    ensures
        m@ == s_record_map(Map::empty(), plugin_data@.top_groups, 0, 0),
{
    let ghost groups = plugin_data@.top_groups;
    let mut map: HashMap<u32, RecordIndex> = HashMap::new();
    let n = plugin_data.top_groups.len();
    let mut gi: usize = 0;
    while gi < n
        invariant
            gi <= n,
            s_record_map(Map::empty(), groups, 0, 0) == s_record_map(map@, groups, gi as int, 0),
        decreases n - gi,
    {
        let rn = plugin_data.top_groups[gi].records.len();
        let mut ri: usize = 0;
        while ri < rn
            invariant
                gi < n,
                ri <= rn,
                rn == groups[gi as int].records.len(),
                s_record_map(Map::empty(), groups, 0, 0) == s_record_map(
                    map@,
                    groups,
                    gi as int,
                    ri as int,
                ),
            decreases rn - ri,
        {
            let id = plugin_data.top_groups[gi].records[ri].header.id;
            map.insert(id, RecordIndex { group_pos: gi, record_pos: ri });
            ri = ri + 1;
        }
        gi = gi + 1;
    }
    map
}

/// Index of the first top-level group whose label carries the given
/// code; the length when there is none.
pub open spec fn first_matching_group_index(groups: Seq<GroupView>, code: Seq<u8>) -> int
    decreases groups.len(),
{
    if groups.len() == 0 {
        0
    } else if groups[0].header.group_type == 0 && le_bytes_of_u32(groups[0].header.label)
        == code {
        0
    } else {
        1 + first_matching_group_index(groups.drop_first(), code)
    }
}

/// What [`first_matching_group_index`] finds.
pub proof fn lemma_first_matching_group_index(groups: Seq<GroupView>, code: Seq<u8>)
    ensures
        0 <= first_matching_group_index(groups, code) <= groups.len(),
        first_matching_group_index(groups, code) < groups.len() ==> {
            let g = groups[first_matching_group_index(groups, code)];
            g.header.group_type == 0 && le_bytes_of_u32(g.header.label) == code
        },
        forall|j: int|
            0 <= j < first_matching_group_index(groups, code) ==> !((
            #[trigger] groups[j]).header.group_type == 0 && le_bytes_of_u32(groups[j].header.label)
                == code),
    decreases groups.len(),
{
    if groups.len() > 0 && !(groups[0].header.group_type == 0 && le_bytes_of_u32(
        groups[0].header.label,
    ) == code) {
        lemma_first_matching_group_index(groups.drop_first(), code);
        assert forall|j: int| 0 <= j < first_matching_group_index(groups, code) implies !((
        #[trigger] groups[j]).header.group_type == 0 && le_bytes_of_u32(groups[j].header.label)
            == code) by {
            if j > 0 {
                assert(!(groups.drop_first()[j - 1].header.group_type == 0 && le_bytes_of_u32(
                    groups.drop_first()[j - 1].header.label,
                ) == code));
            }
        }
    }
}

/// A loaded plugin with its form-id index: the sole surface consumed by
/// viewer and editor collaborators.
#[derive(Debug)]
pub struct Plugin {
    pub plugin_data: parser::Plugin,
    pub record_map: HashMap<u32, RecordIndex>,
    pub base: bool,
}

impl Plugin {
    /// The views of the top-level groups of the wrapped plugin.
    pub open spec fn top_groups_view(self) -> Seq<GroupView> {
        self.plugin_data@.top_groups
    }

    /// The record index matches the plugin data: it is exactly the map
    /// the ordered walk produces, so every entry points at a record
    /// carrying the entry's form id.
    pub open spec fn wf(self) -> bool {
        self.record_map@ == s_record_map(
            Map::empty(),
            self.plugin_data@.top_groups,
            0,
            0,
        )
    }

    /// Wrap a decoded plugin and build its form-id index.
    pub fn new(plugin_data: parser::Plugin, is_base: bool) -> (r: Plugin)
        ensures
            r.wf(),
            r.plugin_data == plugin_data,
            r.base == is_base,
    {
        let record_map = generate_maps(&plugin_data);
        Plugin { plugin_data, record_map, base: is_base }
    }

    /// The records of the first top-level group of the given kind.
    #[verifier::loop_isolation(false)]
    pub fn get_records_by_code(&self, code: TypeCode) -> (r: Option<&Vec<parser::Record>>)
        ensures
            ({
                let groups = self.top_groups_view();
                let fmi = first_matching_group_index(groups, code@);
                match r {
                    Some(records) => fmi < groups.len() && records@
                        == self.plugin_data.top_groups@[fmi].records@,
                    None => fmi == groups.len(),
                }
            }),
    {
        proof {
            lemma_first_matching_group_index(self.top_groups_view(), code@);
        }
        let n = self.plugin_data.top_groups.len();
        let mut gi: usize = 0;
        while gi < n
            invariant
                gi <= n,
                n == self.plugin_data.top_groups@.len(),
                forall|j: int|
                    0 <= j < gi ==> !((#[trigger] self.top_groups_view()[j]).header.group_type
                        == 0 && le_bytes_of_u32(self.top_groups_view()[j].header.label)
                        == code@),
            decreases n - gi,
        {
            if self.plugin_data.top_groups[gi].top_group_matches_type(code) {
                proof {
                    let groups = self.top_groups_view();
                    assert(groups[gi as int].header.group_type == 0 && le_bytes_of_u32(
                        groups[gi as int].header.label,
                    ) == code@);
                    assert(first_matching_group_index(groups, code@) == gi);
                }
                return Some(&self.plugin_data.top_groups[gi].records);
            }
            gi = gi + 1;
        }
        None
    }

    /// The record carrying the given form id, across all decoded
    /// groups, when one exists.
    pub fn get_record(&self, id: u32) -> (r: Option<&parser::Record>)
        requires
            self.wf(),
        ensures
            match r {
                Some(rec) => self.record_map@.contains_key(id) && rec@.header.id == id,
                None => !self.record_map@.contains_key(id),
            },
    {
        proof {
            let groups = self.plugin_data@.top_groups;
            assert(self.plugin_data.top_groups.len() == self.plugin_data.top_groups@.len());
            assert forall|g: int| 0 <= g < groups.len() implies (#[trigger] groups[g]).records.len()
                <= usize::MAX by {
                let v = self.plugin_data.top_groups@[g];
                assert(v.records.len() == v.records@.len());
            }
            lemma_record_map_wf(Map::empty(), groups, 0, 0);
        }
        match self.record_map.get(&id) {
            Some(index) => Some(
                &self.plugin_data.top_groups[index.group_pos].records[index.record_pos],
            ),
            None => None,
        }
    }
}

} // verus!
