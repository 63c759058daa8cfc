//! The destination side: a removable drive as an immutable value — a label
//! and a mount path — plus a plain ordered container of candidate drives.
//! Drive discovery itself is a platform query performed by the surrounding
//! program; this crate only consumes the resulting list.

use vstd::prelude::*;
use vstd::string::StrSliceExecFns;

verus! {

/// The position of the last path separator in `s`, if any.
pub open spec fn spec_last_sep(s: Seq<char>) -> Option<int>
    decreases s.len(),
{
    if s.len() == 0 {
        None
    } else if s.last() == '/' {
        Some(s.len() - 1)
    } else {
        spec_last_sep(s.drop_last())
    }
}

/// The display label of a mount path: the text after its final `/`, or the
/// whole path when it holds no separator.
pub open spec fn spec_label_of(s: Seq<char>) -> Seq<char> {
    match spec_last_sep(s) {
        Some(i) => s.subrange(i + 1, s.len() as int),
        None => s,
    }
}

/// Derives the label a drive is shown under from its mount path.
pub fn label_of_mount_path(path: &str) -> (r: String)
    ensures
        r@ == spec_label_of(path@),
{
    let n = path.unicode_len();
    let mut i: usize = n;
    proof {
        assert(path@.take(i as int) =~= path@);
    }
    while i > 0
        invariant
            i <= n,
            n == path@.len(),
            spec_last_sep(path@) == spec_last_sep(path@.take(i as int)),
        decreases i,
    {
        i -= 1;
        assert(path@.take(i + 1).last() == path@[i as int]);
        assert(path@.take(i + 1).drop_last() =~= path@.take(i as int));
        if path.get_char(i) == '/' {
            let seg = path.substring_char(i + 1, n);
            assert(seg@ == spec_label_of(path@));
            return seg.to_owned();
        }
    }
    assert(path@.take(0) =~= Seq::<char>::empty());
    path.to_owned()
}

/// A removable destination: a human-readable label and the mount path used
/// as the output directory of a download job.
#[derive(Debug)]
pub struct Drive {
    pub name: String,
    pub mount_point: String,
}

impl Drive {
    pub fn new(name: String, mount_point: String) -> (r: Drive)
        ensures
            r.name == name,
            r.mount_point == mount_point,
    {
        Drive { name, mount_point }
    }

    /// The label shown to the user, `<name>: <mount point>`.
    pub fn describe(&self) -> (r: String)
        ensures
            r@ == self.name@ + ": "@ + self.mount_point@,
    {
        self.name.clone().concat(": ").concat(self.mount_point.as_str())
    }
}

impl Clone for Drive {
    fn clone(&self) -> (r: Drive)
        ensures
            r == *self,
    {
        Drive { name: self.name.clone(), mount_point: self.mount_point.clone() }
    }
}

/// An ordered list of candidate destinations, as handed over by the
/// platform's drive enumeration.
pub struct DriveList {
    pub items: Vec<Drive>,
}

impl DriveList {
    pub fn new() -> (r: DriveList)
        ensures
            r@.len() == 0,
    {
        DriveList { items: Vec::new() }
    }

    pub fn from_vec(drives: &Vec<Drive>) -> (r: DriveList)
        ensures
            r@ == drives@,
    {
        let mut items: Vec<Drive> = Vec::new();
        let mut i: usize = 0;
        while i < drives.len()
            invariant
                i <= drives@.len(),
                items@.len() == i as nat,
                forall|j: int| 0 <= j < i ==> items@[j] == drives@[j],
            decreases drives@.len() - i,
        {
            items.push(drives[i].clone());
            i += 1;
        }
        assert(items@ =~= drives@);
        DriveList { items }
    }

    /// How many destinations the list holds.
    pub fn n_items(&self) -> (r: u32)
        requires
            self@.len() <= u32::MAX,
        ensures
            r as nat == self@.len(),
    {
        self.items.len() as u32
    }

    /// The destination at `position`, if the list is that long.
    pub fn item(&self, position: u32) -> (r: Option<Drive>)
        ensures
            match r {
                Some(d) => position < self@.len() && d == self@[position as int],
                None => position >= self@.len(),
            },
    {
        if (position as usize) < self.items.len() {
            Some(self.items[position as usize].clone())
        } else {
            None
        }
    }
}

impl View for DriveList {
    type V = Seq<Drive>;

    open spec fn view(&self) -> Seq<Drive> {
        self.items@
    }
}

impl Default for DriveList {
    fn default() -> (r: Self)
        ensures
            r@.len() == 0,
    {
        Self::new()
    }
}

} // verus!
