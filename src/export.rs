//! Grouping of logged records by bench for export, one group per bench id.
use vstd::prelude::*;

verus! {

/// The positions, in a list of logged records, of those that belong to one
/// bench.
pub struct BatteryGroup {
    pub battery_id: i64,
    pub rows: Vec<usize>,
}

/// `rows` holds, in increasing order, exactly the positions in `ids` whose
/// value is `key`.
pub open spec fn positions_of(ids: Seq<i64>, key: i64, rows: Seq<usize>) -> bool {
    &&& rows.len() > 0
    &&& forall|a: int, b: int| 0 <= a < b < rows.len() ==> rows[a] < rows[b]
    &&& forall|a: int| 0 <= a < rows.len() ==> rows[a] < ids.len() && ids[rows[a] as int] == key
    &&& forall|j: int| 0 <= j < ids.len() && ids[j] == key ==> rows.contains(j as usize)
}

/// The groups of `ids`: one per distinct value, each with all its positions,
/// ordered by where each value first appears.
pub open spec fn is_grouping(ids: Seq<i64>, groups: Seq<BatteryGroup>) -> bool {
    &&& forall|g: int|
        0 <= g < groups.len() ==> #[trigger] positions_of(
            ids,
            groups[g].battery_id,
            groups[g].rows@,
        )
    &&& forall|g: int, h: int|
        0 <= g < h < groups.len() ==> groups[g].battery_id != groups[h].battery_id
            && groups[g].rows@[0] < groups[h].rows@[0]
    &&& forall|j: int| 0 <= j < ids.len() ==> #[trigger] has_group(groups, ids[j])
}

/// Some group is for bench `key`.
pub open spec fn has_group(groups: Seq<BatteryGroup>, key: i64) -> bool {
    exists|g: int| 0 <= g < groups.len() && #[trigger] groups[g].battery_id == key
}

/// Groups the positions of the records by bench id.
pub fn group_by_battery(ids: &Vec<i64>) -> (r: Vec<BatteryGroup>)
    ensures
        is_grouping(ids@, r@),
{
    let mut groups: Vec<BatteryGroup> = Vec::new();
    let mut k: usize = 0;
    while k < ids.len()
        invariant
            k <= ids@.len(),
            is_grouping(ids@.subrange(0, k as int), groups@),
        decreases ids@.len() - k,
    {
        let key = ids[k];
        let ghost pre = ids@.subrange(0, k as int);
        let ghost post = ids@.subrange(0, k + 1);
        assert(post == pre.push(key));
        let mut g: usize = 0;
        while g < groups.len() && groups[g].battery_id != key
            invariant
                g <= groups@.len(),
                forall|h: int| 0 <= h < g ==> groups@[h].battery_id != key,
            decreases groups@.len() - g,
        {
            g = g + 1;
        }
        if g < groups.len() {
            let mut rows = groups[g].rows.clone();
            assert(rows@ == groups@[g as int].rows@);
            rows.push(k);
            let ghost old_groups = groups@;
            groups.set(g, BatteryGroup { battery_id: key, rows });
            assert forall|h: int| 0 <= h < groups@.len() implies #[trigger] positions_of(
                post,
                groups@[h].battery_id,
                groups@[h].rows@,
            ) by {
                assert(positions_of(pre, old_groups[h].battery_id, old_groups[h].rows@));
                if h == g {
                    assert(groups@[h].rows@ == old_groups[h].rows@.push(k));
                    assert forall|j: int|
                        0 <= j < post.len() && post[j] == key implies groups@[h].rows@.contains(
                        j as usize,
                    ) by {
                        if j < k {
                            let w = choose|w: int|
                                0 <= w < old_groups[h].rows@.len() && old_groups[h].rows@[w]
                                    == j as usize;
                            assert(groups@[h].rows@[w] == j as usize);
                        } else {
                            assert(groups@[h].rows@[old_groups[h].rows@.len() as int] == k);
                        }
                    }
                } else {
                    assert forall|j: int|
                        0 <= j < post.len() && post[j] == groups@[h].battery_id implies groups@[h].rows@.contains(
                        j as usize,
                    ) by {
                        assert(j < k);
                    }
                }
            }
            assert forall|a: int, b: int| 0 <= a < b < groups@.len() implies groups@[a].battery_id
                != groups@[b].battery_id && groups@[a].rows@[0] < groups@[b].rows@[0] by {
                assert(positions_of(pre, old_groups[a].battery_id, old_groups[a].rows@));
                assert(positions_of(pre, old_groups[b].battery_id, old_groups[b].rows@));
                assert(groups@[a].rows@[0] == old_groups[a].rows@[0]);
                assert(groups@[b].rows@[0] == old_groups[b].rows@[0]);
            }
            assert forall|j: int| 0 <= j < post.len() implies #[trigger] has_group(groups@, post[j]) by {
                if j < k {
                    assert(has_group(old_groups, pre[j]));
                    let w = choose|w: int| 0 <= w < old_groups.len() && #[trigger] old_groups[w].battery_id == pre[j];
                    assert(groups@[w].battery_id == post[j]);
                } else {
                    assert(groups@[g as int].battery_id == post[j]);
                }
            }
        } else {
            let mut rows: Vec<usize> = Vec::new();
            rows.push(k);
            let ghost old_groups = groups@;
            groups.push(BatteryGroup { battery_id: key, rows });
            assert forall|h: int| 0 <= h < groups@.len() implies #[trigger] positions_of(
                post,
                groups@[h].battery_id,
                groups@[h].rows@,
            ) by {
                if h < old_groups.len() {
                    assert(positions_of(pre, old_groups[h].battery_id, old_groups[h].rows@));
                    assert(groups@[h] == old_groups[h]);
                } else {
                    assert forall|j: int|
                        0 <= j < post.len() && post[j] == key implies groups@[h].rows@.contains(
                        j as usize,
                    ) by {
                        if j < k {
                            assert(has_group(old_groups, pre[j]));
                    let w = choose|w: int| 0 <= w < old_groups.len() && #[trigger] old_groups[w].battery_id == pre[j];
                            assert(old_groups[w].battery_id == key);
                        }
                        assert(groups@[h].rows@[0] == k);
                    }
                }
            }
            assert forall|a: int, b: int| 0 <= a < b < groups@.len() implies groups@[a].battery_id
                != groups@[b].battery_id && groups@[a].rows@[0] < groups@[b].rows@[0] by {
                if b == old_groups.len() {
                    assert(positions_of(pre, old_groups[a].battery_id, old_groups[a].rows@));
                    assert(old_groups[a].rows@[0] < k);
                }
            }
            assert forall|j: int| 0 <= j < post.len() implies #[trigger] has_group(groups@, post[j]) by {
                if j < k {
                    assert(has_group(old_groups, pre[j]));
                    let w = choose|w: int| 0 <= w < old_groups.len() && #[trigger] old_groups[w].battery_id == pre[j];
                    assert(groups@[w].battery_id == post[j]);
                } else {
                    assert(groups@[old_groups.len() as int].battery_id == post[j]);
                }
            }
        }
        k = k + 1;
    }
    assert(ids@.subrange(0, k as int) == ids@);
    groups
}


/// Column names of an exported record, in order.
pub open spec fn export_columns() -> Seq<Seq<char>> {
    seq![
        "record_id"@,
        "id"@,
        "port"@,
        "temperature"@,
        "battery_temperature"@,
        "electronic_load_temperature"@,
        "voltage"@,
        "current"@,
        "state"@,
        "status"@,
        "start_date"@,
        "end_date"@,
    ]
}

/// The header line of an export, one name per column.
pub fn export_header() -> (r: Vec<&'static str>)
    ensures
        r@.map_values(|s: &str| s@) == export_columns(),
{
    let r = vec![
        "record_id",
        "id",
        "port",
        "temperature",
        "battery_temperature",
        "electronic_load_temperature",
        "voltage",
        "current",
        "state",
        "status",
        "start_date",
        "end_date",
    ];
    assert(r@.map_values(|s: &str| s@) == export_columns());
    r
}

} // verus!
