//! Installing desktop applications from Flathub and the Snap store, with the
//! lists of installed applications kept in memory.
pub mod flatpak;
pub mod snap;

use vstd::prelude::*;
use crate::text::{str_eq, views};

verus! {

/// The applications known to be installed, by application id or snap name.
pub struct Info {
    pub flatpak_installed: Vec<String>,
    pub snap_installed: Vec<String>,
}

/// `i` is the first index of `name` in `list`.
proof fn first_index(list: Seq<Seq<char>>, name: Seq<char>, i: int)
    requires
        0 <= i < list.len(),
        list[i] == name,
        forall|j: int| 0 <= j < i ==> list[j] != name,
    ensures
        list.index_of_first(name) == Some(i),
        list.remove_value(name) == list.remove(i),
{
    list.index_of_first_ensures(name);
    assert(list.contains(name));
    let k = list.index_of_first(name).unwrap();
    assert(k == i) by {
        if k < i {
            assert(list[k] != name);
        } else if k > i {
            assert(list[i] != name);
        }
    }
}

/// The index of the first entry of `list` equal to `name`.
pub fn position(list: &Vec<String>, name: &str) -> (r: Option<usize>)
    ensures
        match r {
            Some(i) => {
                &&& i < list@.len()
                &&& views(list@)[i as int] == name@
                &&& views(list@).contains(name@)
                &&& views(list@).index_of_first(name@) == Some(i as int)
                &&& views(list@).remove_value(name@) == views(list@).remove(i as int)
            },
            None => !views(list@).contains(name@),
        },
{
    let mut i: usize = 0;
    while i < list.len()
        invariant
            i <= list@.len(),
            forall|j: int| 0 <= j < i ==> views(list@)[j] != name@,
        decreases list.len() - i,
    {
        assert(views(list@)[i as int] == list@[i as int]@);
        if str_eq(list[i].as_str(), name) {
            proof {
                first_index(views(list@), name@, i as int);
            }
            assert(views(list@).contains(name@));
            return Some(i);
        }
        i += 1;
    }
    None
}

} // verus!
