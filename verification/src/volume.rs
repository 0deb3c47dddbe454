//! The typed report records and the two owning entities.
//!
//! A report record carries one row of the external tool's listing with
//! its numeric fields already converted.  A volume group or logical
//! volume is a thin capability handle, a name and a filesystem path; it
//! caches no report data.

use vstd::prelude::*;

use crate::error::LvmError;

verus! {

/// One row of the logical-volume report, fields as the tool names them.
#[derive(Debug)]
pub struct LogicalVolumeReport {
    pub lv_name: String,
    pub vg_name: String,
    pub seg_count: i32,
    pub lv_attr: String,
    pub lv_size: u64,
    pub lv_major: i32,
    pub lv_minor: i32,
    pub lv_kernel_major: i32,
    pub lv_kernel_minor: i32,
    pub pool_lv: String,
    pub origin: String,
    pub data_percent: String,
    pub metadata_percent: String,
    pub move_pv: String,
    pub copy_percent: String,
    pub mirror_log: String,
    pub convert_lv: String,
    pub lv_uuid: String,
    pub lv_profile: String,
}

/// One row of the volume-group report.
#[derive(Debug)]
pub struct VolumeGroupReport {
    pub vg_name: String,
    pub vg_attr: String,
    pub vg_extent_size: u64,
    pub pv_count: u32,
    pub lv_count: u32,
    pub snap_count: u32,
    pub vg_size: u64,
    pub vg_free: u64,
    pub vg_uuid: String,
    pub vg_profile: String,
}

/// A volume group, identified by name and filesystem path.
#[derive(Debug)]
pub struct VolumeGroup {
    pub name: String,
    pub path: String,
}

/// A logical volume, identified by name and filesystem path nested
/// under its owning volume group's path.
#[derive(Debug)]
pub struct LogicalVolume {
    pub name: String,
    pub path: String,
}

/// The captured outcome of one external tool invocation: whether the
/// exit status signalled success, and the two output streams.
#[derive(Debug)]
pub struct ToolOutput {
    pub success: bool,
    pub stdout: String,
    pub stderr: String,
}

/// Character-wise string equality.
pub fn str_eq(a: &str, b: &str) -> (r: bool)
    ensures
        r == (a@ == b@),
{
    let n: usize = a.unicode_len();
    let m: usize = b.unicode_len();
    if n != m {
        return false;
    }
    let mut i: usize = 0;
    while i < n
        invariant
            n == a@.len(),
            n == b@.len(),
            i <= n,
            forall|j: int| 0 <= j < i ==> a@[j] == b@[j],
        decreases n - i,
    {
        if a.get_char(i) != b.get_char(i) {
            return false;
        }
        i = i + 1;
    }
    proof {
        assert(a@ =~= b@);
    }
    true
}

/// Joining a path with a final component: a separator is inserted
/// unless the base already ends with one or is empty.  The component
/// is appended as given; this layer only ever joins a volume name,
/// never an absolute path.
pub open spec fn spec_join(base: Seq<char>, name: Seq<char>) -> Seq<char> {
    if base.len() > 0 && base.last() == '/' {
        base + name
    } else if base.len() == 0 {
        name
    } else {
        base + seq!['/'] + name
    }
}

/// Joins a base path and a final component.
fn join_path(base: &str, name: &str) -> (r: String)
    ensures
        r@ == spec_join(base@, name@),
{
    let n: usize = base.unicode_len();
    let mut path = String::from_str(base);
    if n > 0 && base.get_char(n - 1) == '/' {
    } else if n == 0 {
    } else {
        proof {
            reveal_strlit("/");
            assert(("/")@ =~= seq!['/']);
        }
        path.append("/");
    }
    path.append(name);
    proof {
        if base@.len() == 0 {
            assert(path@ =~= spec_join(base@, name@));
        } else if base@.last() == '/' {
            assert(path@ =~= spec_join(base@, name@));
        } else {
            assert(path@ =~= spec_join(base@, name@));
        }
    }
    path
}

/// The suffix of a path after its last separator; the whole path when
/// it has none.
pub open spec fn spec_after_last_slash(p: Seq<char>) -> Seq<char>
    decreases p.len(),
{
    if p.len() == 0 {
        Seq::empty()
    } else if p.last() == '/' {
        Seq::empty()
    } else {
        spec_after_last_slash(p.drop_last()).push(p.last())
    }
}

/// The final component of a path: the last non-empty run of characters
/// between separators, with trailing separators and trailing
/// current-directory components ignored.  A path with no such run (the
/// empty path or a bare root), or whose last component is a parent
/// reference, has none.
pub open spec fn spec_file_name(p: Seq<char>) -> Option<Seq<char>>
    decreases p.len(),
{
    if p.len() == 0 {
        None
    } else if p.last() == '/' {
        spec_file_name(p.drop_last())
    } else {
        let name = spec_after_last_slash(p);
        if name == seq!['.'] {
            spec_file_name(p.take(p.len() - 1))
        } else if name == seq!['.', '.'] {
            None
        } else {
            Some(name)
        }
    }
}

proof fn lemma_after_last_slash_range(p: Seq<char>, start: int, end: int)
    requires
        0 <= start <= end <= p.len(),
        start == 0 || p[start - 1] == '/',
        forall|j: int| start <= j < end ==> p[j] != '/',
    ensures
        spec_after_last_slash(p.take(end)) == p.subrange(start, end),
    decreases end - start,
{
    if end == start {
        assert(p.subrange(start, end) =~= Seq::<char>::empty());
        if end > 0 {
            assert(p.take(end).last() == p[end - 1]);
        }
    } else {
        assert(p[end - 1] != '/');
        assert(p.take(end).drop_last() =~= p.take(end - 1));
        lemma_after_last_slash_range(p, start, end - 1);
        assert(p.subrange(start, end - 1).push(p[end - 1]) =~= p.subrange(start, end));
    }
}

/// Extracts the final path component, or `None` when the path has no
/// extractable component.
pub fn path_file_name(path: &str) -> (r: Option<String>)
    ensures
        match r {
            Some(s) => spec_file_name(path@) == Some(s@),
            None => spec_file_name(path@) is None,
        },
{
    let n: usize = path.unicode_len();
    proof {
        assert(path@.take(n as int) =~= path@);
    }
    let mut end: usize = n;
    loop
        invariant
            n == path@.len(),
            end <= n,
            spec_file_name(path@.take(end as int)) == spec_file_name(path@),
        decreases end,
    {
        let ghost end0 = end;
        while end > 0 && path.get_char(end - 1) == '/'
            invariant
                n == path@.len(),
                end <= end0 <= n,
                spec_file_name(path@.take(end as int)) == spec_file_name(path@),
            decreases end,
        {
            proof {
                assert(path@.take(end as int).drop_last() =~= path@.take(end - 1));
                assert(path@.take(end as int).last() == path@[end - 1]);
            }
            end = end - 1;
        }
        if end == 0 {
            return None;
        }
        let mut start: usize = end;
        while start > 0 && path.get_char(start - 1) != '/'
            invariant
                n == path@.len(),
                0 < end <= n,
                start <= end,
                path@[end - 1] != '/',
                forall|j: int| start <= j < end ==> path@[j] != '/',
            decreases start,
        {
            start = start - 1;
        }
        proof {
            lemma_after_last_slash_range(path@, start as int, end as int);
            assert(path@.take(end as int).last() == path@[end - 1]);
        }
        let name_len: usize = end - start;
        if name_len == 1 && path.get_char(start) == '.' {
            proof {
                assert(path@.subrange(start as int, end as int) =~= seq!['.']);
                assert(path@.take(end as int).take(end as int - 1) =~= path@.take(end as int - 1));
            }
            end = start;
        } else if name_len == 2 && path.get_char(start) == '.' && path.get_char(start + 1) == '.' {
            proof {
                assert(path@.subrange(start as int, end as int) =~= seq!['.', '.']);
            }
            return None;
        } else {
            proof {
                let name = path@.subrange(start as int, end as int);
                assert(name.len() == end - start);
                if end - start == 1 {
                    assert(name[0] == path@[start as int]);
                    assert(name != seq!['.']);
                }
                if end - start == 2 {
                    assert(name[0] == path@[start as int]);
                    assert(name[1] == path@[start + 1]);
                    assert(name != seq!['.', '.']);
                }
            }
            let name = path.substring_char(start, end);
            proof {
                assert(name@ == path@.subrange(start as int, end as int));
            }
            return Some(String::from_str(name));
        }
    }
}

/// The first report row whose group name equals the given one.
pub open spec fn spec_first_vg_match(rows: Seq<VolumeGroupReport>, name: Seq<char>) -> Option<
    VolumeGroupReport,
>
    decreases rows.len(),
{
    if rows.len() == 0 {
        None
    } else if rows[0].vg_name@ == name {
        Some(rows[0])
    } else {
        spec_first_vg_match(rows.skip(1), name)
    }
}

/// The name and path of each listed volume belonging to the named
/// group, in listing order: the name is the row's volume name, the
/// path that name joined under the group's path.
pub open spec fn spec_volume_entries(
    rows: Seq<LogicalVolumeReport>,
    name: Seq<char>,
    path: Seq<char>,
) -> Seq<(Seq<char>, Seq<char>)>
    decreases rows.len(),
{
    if rows.len() == 0 {
        Seq::empty()
    } else {
        let rest = spec_volume_entries(rows.skip(1), name, path);
        if rows[0].vg_name@ == name {
            seq![(rows[0].lv_name@, spec_join(path, rows[0].lv_name@))] + rest
        } else {
            rest
        }
    }
}

/// The name and path of each volume in a sequence, in order.
pub open spec fn spec_entries(vols: Seq<LogicalVolume>) -> Seq<(Seq<char>, Seq<char>)>
    decreases vols.len(),
{
    if vols.len() == 0 {
        Seq::empty()
    } else {
        seq![(vols[0].name@, vols[0].path@)] + spec_entries(vols.skip(1))
    }
}

proof fn lemma_entries_push(vols: Seq<LogicalVolume>, x: LogicalVolume)
    ensures
        spec_entries(vols.push(x)) == spec_entries(vols) + seq![(x.name@, x.path@)],
    decreases vols.len(),
{
    reveal_with_fuel(spec_entries, 3);
    if vols.len() == 0 {
        assert(vols.push(x)[0] == x);
        assert(vols.push(x).skip(1) =~= Seq::<LogicalVolume>::empty());
        assert(seq![(x.name@, x.path@)] + Seq::<(Seq<char>, Seq<char>)>::empty() =~= seq![
            (x.name@, x.path@),
        ]);
        assert(spec_entries(vols) + seq![(x.name@, x.path@)] =~= seq![(x.name@, x.path@)]);
    } else {
        assert(vols.push(x).skip(1) =~= vols.skip(1).push(x));
        lemma_entries_push(vols.skip(1), x);
        assert(vols.push(x)[0] == vols[0]);
        assert(seq![(vols[0].name@, vols[0].path@)] + (spec_entries(vols.skip(1)) + seq![
            (x.name@, x.path@),
        ]) =~= (seq![(vols[0].name@, vols[0].path@)] + spec_entries(vols.skip(1))) + seq![
            (x.name@, x.path@),
        ]);
    }
}

impl VolumeGroup {
    /// Derives a volume group from a filesystem path: the group's name
    /// is the path's final component, and a path with none is an
    /// identification error.
    pub fn from_path(path: &str) -> (r: Result<VolumeGroup, LvmError>)
        ensures
            match r {
                Ok(vg) => spec_file_name(path@) == Some(vg.name@) && vg.path@ == path@,
                Err(e) => spec_file_name(path@) is None && (e matches LvmError::NoFileName {
                    path: p,
                } && p@ == path@),
            },
    {
        match path_file_name(path) {
            Some(name) => Ok(VolumeGroup { name, path: String::from_str(path) }),
            None => Err(LvmError::NoFileName { path: String::from_str(path) }),
        }
    }

    /// Returns this group's current report row: the first row of the
    /// handed-in listing whose group name equals this entity's name.
    /// A name that matches no row is a lookup error.
    pub fn report(&self, rows: Vec<VolumeGroupReport>) -> (r: Result<VolumeGroupReport, LvmError>)
        ensures
            match r {
                Ok(rep) => spec_first_vg_match(rows@, self.name@) == Some(rep),
                Err(e) => spec_first_vg_match(rows@, self.name@) is None && (e
                    matches LvmError::GroupNotFound { name: gn } && gn@ == self.name@),
            },
    {
        let ghost all = rows@;
        let mut rs = rows;
        let mut i: usize = 0;
        let mut found: bool = false;
        proof {
            assert(all.skip(0) =~= all);
        }
        while !found && i < rs.len()
            invariant
                rs@ == all,
                i <= all.len(),
                found ==> i < all.len() && spec_first_vg_match(all, self.name@) == Some(
                    all[i as int],
                ),
                !found ==> spec_first_vg_match(all, self.name@) == spec_first_vg_match(
                    all.skip(i as int),
                    self.name@,
                ),
            decreases (if found { 0int } else { 1int }), all.len() - i,
        {
            proof {
                assert(all.skip(i as int)[0] == all[i as int]);
            }
            if rs[i].vg_name == self.name {
                found = true;
                proof {
                    assert(spec_first_vg_match(all.skip(i as int), self.name@) == Some(
                        all[i as int],
                    ));
                }
            } else {
                proof {
                    assert(all.skip(i as int).skip(1) =~= all.skip(i + 1));
                }
                i = i + 1;
            }
        }
        if found {
            let rep = rs.remove(i);
            return Ok(rep);
        }
        proof {
            assert(all.skip(all.len() as int) =~= Seq::<VolumeGroupReport>::empty());
        }
        Err(LvmError::GroupNotFound { name: self.name.clone() })
    }

    /// Filters the handed-in listing down to this group's volumes, in
    /// listing order, each bound under this group's path.  A group
    /// that matches no row yields the empty vector; that is no error.
    pub fn volumes(&self, rows: Vec<LogicalVolumeReport>) -> (r: Vec<LogicalVolume>)
        ensures
            spec_entries(r@) == spec_volume_entries(rows@, self.name@, self.path@),
    {
        let ghost all = rows@;
        let mut rs = rows;
        let mut out: Vec<LogicalVolume> = Vec::new();
        proof {
            assert(spec_entries(out@) + spec_volume_entries(rs@, self.name@, self.path@)
                =~= spec_volume_entries(all, self.name@, self.path@));
        }
        while rs.len() > 0
            invariant
                spec_entries(out@) + spec_volume_entries(rs@, self.name@, self.path@)
                    == spec_volume_entries(all, self.name@, self.path@),
            decreases rs@.len(),
        {
            let ghost before = rs@;
            let ghost out_before = out@;
            let row = rs.remove(0);
            proof {
                assert(before.remove(0) =~= before.skip(1));
                assert(before[0] == row);
            }
            if row.vg_name == self.name {
                let lv = LogicalVolume::from_report(self, row);
                proof {
                    lemma_entries_push(out_before, lv);
                }
                out.push(lv);
                proof {
                    assert((spec_entries(out_before) + seq![(lv.name@, lv.path@)])
                        + spec_volume_entries(rs@, self.name@, self.path@) =~= spec_entries(
                        out_before,
                    ) + (seq![(lv.name@, lv.path@)] + spec_volume_entries(
                        rs@,
                        self.name@,
                        self.path@,
                    )));
                }
            }
        }
        proof {
            assert(spec_volume_entries(rs@, self.name@, self.path@) =~= Seq::<
                (Seq<char>, Seq<char>),
            >::empty());
            assert(spec_entries(out@) + Seq::<(Seq<char>, Seq<char>)>::empty() =~= spec_entries(
                out@,
            ));
        }
        out
    }

    /// The argument list of the external creation command: a virtual
    /// size in byte units, the group's thin-pool target, and the new
    /// volume's name.
    pub fn create_volume_args(&self, name: &str, size: u64) -> (args: Vec<String>)
        ensures
            args@.len() == 6,
            args@[0]@ == "-V"@,
            args@[1]@ == crate::parse::spec_size_string(size as nat),
            args@[2]@ == "-T"@,
            args@[3]@ == self.name@ + "/thinpool"@,
            args@[4]@ == "-n"@,
            args@[5]@ == name@,
    {
        let mut args: Vec<String> = Vec::new();
        args.push(String::from_str("-V"));
        args.push(crate::parse::format_size(size));
        args.push(String::from_str("-T"));
        let mut pool = self.name.clone();
        pool.append("/thinpool");
        args.push(pool);
        args.push(String::from_str("-n"));
        args.push(String::from_str(name));
        args
    }

    /// Decides the outcome of a creation attempt.  A failed creation
    /// command surfaces its standard-error text; a successful one is
    /// confirmed against the handed-in follow-up listing, and a volume
    /// the listing does not show is a distinct lookup error.
    pub fn create_volume(
        &self,
        name: &str,
        create_output: &ToolOutput,
        rows: Vec<LogicalVolumeReport>,
    ) -> (r: Result<LogicalVolume, LvmError>)
        ensures
            !create_output.success ==> (r matches Err(e) && (e matches LvmError::CommandFailed {
                tool,
                stderr,
            } && tool@ == "lvcreate"@ && stderr@ == create_output.stderr@)),
            create_output.success ==> match r {
                Ok(lv) => lv.name@ == name@ && lv.path@ == spec_join(self.path@, name@) && (
                exists|i: int|
                    0 <= i < rows@.len() && (#[trigger] rows@[i].vg_name@) == self.name@
                        && rows@[i].lv_name@ == name@),
                Err(e) => (e matches LvmError::VolumeNotFound { name: vn } && vn@ == name@) && !(
                exists|i: int|
                    0 <= i < rows@.len() && (#[trigger] rows@[i].vg_name@) == self.name@
                        && rows@[i].lv_name@ == name@),
            },
    {
        if !create_output.success {
            return Err(
                LvmError::CommandFailed {
                    tool: String::from_str("lvcreate"),
                    stderr: create_output.stderr.clone(),
                },
            );
        }
        let mut i: usize = 0;
        while i < rows.len()
            invariant
                create_output.success,
                i <= rows@.len(),
                forall|j: int|
                    0 <= j < i ==> !((#[trigger] rows@[j].vg_name@) == self.name@
                        && rows@[j].lv_name@ == name@),
            decreases rows@.len() - i,
        {
            if rows[i].vg_name == self.name && str_eq(rows[i].lv_name.as_str(), name) {
                let path = join_path(self.path.as_str(), name);
                return Ok(LogicalVolume { name: String::from_str(name), path });
            }
            i = i + 1;
        }
        Err(LvmError::VolumeNotFound { name: String::from_str(name) })
    }
}

impl LogicalVolume {
    /// Derives a logical volume from a filesystem path, with the same
    /// rule and failure mode as the volume-group constructor.
    pub fn from_path(path: &str) -> (r: Result<LogicalVolume, LvmError>)
        ensures
            match r {
                Ok(lv) => spec_file_name(path@) == Some(lv.name@) && lv.path@ == path@,
                Err(e) => spec_file_name(path@) is None && (e matches LvmError::NoFileName {
                    path: p,
                } && p@ == path@),
            },
    {
        match path_file_name(path) {
            Some(name) => Ok(LogicalVolume { name, path: String::from_str(path) }),
            None => Err(LvmError::NoFileName { path: String::from_str(path) }),
        }
    }

    /// Binds a report row to its owning volume group: the volume takes
    /// the row's name, and its path is the group's path joined with
    /// that name.
    pub fn from_report(vg: &VolumeGroup, report: LogicalVolumeReport) -> (lv: LogicalVolume)
        ensures
            lv.name@ == report.lv_name@,
            lv.path@ == spec_join(vg.path@, report.lv_name@),
    {
        let path = join_path(vg.path.as_str(), report.lv_name.as_str());
        LogicalVolume { name: report.lv_name, path }
    }
}

} // verus!
