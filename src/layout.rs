//! Where a layer lives on each tier: `<root>/<abc>/<name>.larch` on the
//! fan-out tiers, `<root>/<name>.larch` on the flat scratch tier.

use vstd::prelude::*;
use vstd::string::*;
use crate::name::{is_hex_char, lemma_name_round_trip, name_hex, name_to_string};

verus! {

pub open spec fn larch_suffix() -> Seq<char> {
    seq!['.', 'l', 'a', 'r', 'c', 'h']
}

/// Appends one relative component to a directory, with one separator
/// between them (none after an empty directory or one that already ends in
/// a separator).
pub open spec fn join_spec(dir: Seq<char>, part: Seq<char>) -> Seq<char> {
    if dir.len() == 0 {
        part
    } else if dir.last() == '/' {
        dir + part
    } else {
        dir + seq!['/'] + part
    }
}

/// The file name of a layer: its canonical form followed by `.larch`.
pub open spec fn layer_file_name_spec(n: Seq<u32>) -> Seq<char> {
    name_hex(n) + larch_suffix()
}

/// The fan-out directory of a layer: the first three characters of its name.
pub open spec fn fan_out_dir_spec(n: Seq<u32>) -> Seq<char> {
    name_hex(n).take(3)
}

pub open spec fn fan_out_path_spec(root: Seq<char>, n: Seq<u32>) -> Seq<char> {
    join_spec(join_spec(root, fan_out_dir_spec(n)), layer_file_name_spec(n))
}

pub open spec fn flat_path_spec(root: Seq<char>, n: Seq<u32>) -> Seq<char> {
    join_spec(root, layer_file_name_spec(n))
}

/// `dir` joined with `part`, as a path.
pub fn join(dir: &str, part: &str) -> (r: String)
    ensures
        r@ == join_spec(dir@, part@),
{
    let len = dir.unicode_len();
    let mut r = String::from_str(dir);
    if len == 0 {
        r = String::from_str(part);
    } else if dir.get_char(len - 1) == '/' {
        r.append(part);
    } else {
        proof {
            reveal_strlit("/");
        }
        r.append("/");
        r.append(part);
    }
    r
}

/// `<name>.larch`.
pub fn layer_file_name(name: [u32; 5]) -> (r: String)
    ensures
        r@ == layer_file_name_spec(name@),
{
    let mut r = name_to_string(name);
    proof {
        reveal_strlit(".larch");
    }
    r.append(".larch");
    proof {
        assert(".larch"@ =~= larch_suffix());
    }
    r
}

/// `<root>/<abc>/<name>.larch`, the layout of the primary and local tiers.
pub fn fan_out_path(root: &str, name: [u32; 5]) -> (r: String)
    ensures
        r@ == fan_out_path_spec(root@, name@),
{
    let hex = name_to_string(name);
    proof {
        lemma_name_round_trip(name);
    }
    let dir = join(root, hex.as_str().substring_char(0, 3));
    let file = layer_file_name(name);
    join(dir.as_str(), file.as_str())
}

/// `<root>/<name>.larch`, the layout of the scratch tier.
pub fn flat_path(root: &str, name: [u32; 5]) -> (r: String)
    ensures
        r@ == flat_path_spec(root@, name@),
{
    let file = layer_file_name(name);
    join(root, file.as_str())
}

/// On a fan-out tier the directory that holds a layer's file is named by the
/// first three characters of the layer's canonical form: the path is that
/// directory, a separator, and a file name with no separator in it.
pub proof fn lemma_fan_out_parent(root: Seq<char>, n: [u32; 5])
    ensures
        ({
            let p = fan_out_path_spec(root, n@);
            let d = join_spec(root, fan_out_dir_spec(n@));
            let f = layer_file_name_spec(n@);
            &&& p == d + seq!['/'] + f
            &&& d.len() >= 3
            &&& d.subrange(d.len() - 3, d.len() as int) == name_hex(n@).take(3)
            &&& (d.len() == 3 || d[d.len() - 4] == '/')
            &&& forall|i: int| 0 <= i < f.len() ==> #[trigger] f[i] != '/'
        }),
{
    lemma_name_round_trip(n);
    let h = name_hex(n@);
    let t = h.take(3);
    let d = join_spec(root, t);
    let f = layer_file_name_spec(n@);
    assert(is_hex_char(h[2]));
    assert(t.last() == h[2]);
    assert(d.last() == t.last());
    assert(d.last() != '/');
    assert(d.subrange(d.len() - 3, d.len() as int) =~= t);
    assert forall|i: int| 0 <= i < f.len() implies #[trigger] f[i] != '/' by {
        if i < 40 {
            assert(is_hex_char(h[i]));
        }
    }
}

} // verus!
