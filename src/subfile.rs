//! The sub-files of a layer archive and their lower-snake-case tokens.

use vstd::prelude::*;

verus! {

/// A sub-file of a layer archive.
#[derive(Clone, Copy, Debug, PartialEq, Eq, Structural, Hash)]
pub enum LayerFile {
    NodeDictionaryBlocks,
    NodeDictionaryOffsets,
    PredicateDictionaryBlocks,
    PredicateDictionaryOffsets,
    ValueDictionaryTypesPresent,
    ValueDictionaryTypeOffsets,
    ValueDictionaryBlocks,
    ValueDictionaryOffsets,
    NodeValueIdMapBits,
    NodeValueIdMapBitIndexBlocks,
    NodeValueIdMapBitIndexSBlocks,
    PredicateIdMapBits,
    PredicateIdMapBitIndexBlocks,
    PredicateIdMapBitIndexSBlocks,
    PosSubjects,
    PosObjects,
    NegSubjects,
    NegObjects,
    PosSPAdjacencyListNums,
    PosSPAdjacencyListBits,
    PosSPAdjacencyListBitIndexBlocks,
    PosSPAdjacencyListBitIndexSBlocks,
    PosSpOAdjacencyListNums,
    PosSpOAdjacencyListBits,
    PosSpOAdjacencyListBitIndexBlocks,
    PosSpOAdjacencyListBitIndexSBlocks,
    PosOPsAdjacencyListNums,
    PosOPsAdjacencyListBits,
    PosOPsAdjacencyListBitIndexBlocks,
    PosOPsAdjacencyListBitIndexSBlocks,
    PosPredicateWaveletTreeBits,
    PosPredicateWaveletTreeBitIndexBlocks,
    PosPredicateWaveletTreeBitIndexSBlocks,
    NegSPAdjacencyListNums,
    NegSPAdjacencyListBits,
    NegSPAdjacencyListBitIndexBlocks,
    NegSPAdjacencyListBitIndexSBlocks,
    NegSpOAdjacencyListNums,
    NegSpOAdjacencyListBits,
    NegSpOAdjacencyListBitIndexBlocks,
    NegSpOAdjacencyListBitIndexSBlocks,
    NegOPsAdjacencyListNums,
    NegOPsAdjacencyListBits,
    NegOPsAdjacencyListBitIndexBlocks,
    NegOPsAdjacencyListBitIndexSBlocks,
    NegPredicateWaveletTreeBits,
    NegPredicateWaveletTreeBitIndexBlocks,
    NegPredicateWaveletTreeBitIndexSBlocks,
    Parent,
}

/// The token that names each sub-file.
pub open spec fn file_token(f: LayerFile) -> Seq<char> {
    match f {
        LayerFile::NodeDictionaryBlocks => "node_dictionary_blocks"@,
        LayerFile::NodeDictionaryOffsets => "node_dictionary_offsets"@,
        LayerFile::PredicateDictionaryBlocks => "predicate_dictionary_blocks"@,
        LayerFile::PredicateDictionaryOffsets => "predicate_dictionary_offsets"@,
        LayerFile::ValueDictionaryTypesPresent => "value_dictionary_types_present"@,
        LayerFile::ValueDictionaryTypeOffsets => "value_dictionary_type_offsets"@,
        LayerFile::ValueDictionaryBlocks => "value_dictionary_blocks"@,
        LayerFile::ValueDictionaryOffsets => "value_dictionary_offsets"@,
        LayerFile::NodeValueIdMapBits => "node_value_id_map_bits"@,
        LayerFile::NodeValueIdMapBitIndexBlocks => "node_value_id_map_bit_index_blocks"@,
        LayerFile::NodeValueIdMapBitIndexSBlocks => "node_value_id_map_bit_index_sblocks"@,
        LayerFile::PredicateIdMapBits => "predicate_id_map_bits"@,
        LayerFile::PredicateIdMapBitIndexBlocks => "predicate_id_map_bit_index_blocks"@,
        LayerFile::PredicateIdMapBitIndexSBlocks => "predicate_id_map_bit_index_sblocks"@,
        LayerFile::PosSubjects => "pos_subjects"@,
        LayerFile::PosObjects => "pos_objects"@,
        LayerFile::NegSubjects => "neg_subjects"@,
        LayerFile::NegObjects => "neg_objects"@,
        LayerFile::PosSPAdjacencyListNums => "pos_sp_adjacency_list_nums"@,
        LayerFile::PosSPAdjacencyListBits => "pos_sp_adjacency_list_bits"@,
        LayerFile::PosSPAdjacencyListBitIndexBlocks => "pos_sp_adjacency_list_bit_index_blocks"@,
        LayerFile::PosSPAdjacencyListBitIndexSBlocks => "pos_sp_adjacency_list_bit_index_sblocks"@,
        LayerFile::PosSpOAdjacencyListNums => "pos_sp_o_adjacency_list_nums"@,
        LayerFile::PosSpOAdjacencyListBits => "pos_sp_o_adjacency_list_bits"@,
        LayerFile::PosSpOAdjacencyListBitIndexBlocks => "pos_sp_o_adjacency_list_bit_index_blocks"@,
        LayerFile::PosSpOAdjacencyListBitIndexSBlocks => "pos_sp_o_adjacency_list_bit_index_sblocks"@,
        LayerFile::PosOPsAdjacencyListNums => "pos_o_ps_adjacency_list_nums"@,
        LayerFile::PosOPsAdjacencyListBits => "pos_o_ps_adjacency_list_bits"@,
        LayerFile::PosOPsAdjacencyListBitIndexBlocks => "pos_o_ps_adjacency_list_bit_index_blocks"@,
        LayerFile::PosOPsAdjacencyListBitIndexSBlocks => "pos_o_ps_adjacency_list_bit_index_sblocks"@,
        LayerFile::PosPredicateWaveletTreeBits => "pos_predicate_wavelet_tree_bits"@,
        LayerFile::PosPredicateWaveletTreeBitIndexBlocks => "pos_predicate_wavelet_tree_bit_index_blocks"@,
        LayerFile::PosPredicateWaveletTreeBitIndexSBlocks => "pos_predicate_wavelet_tree_bit_index_sblocks"@,
        LayerFile::NegSPAdjacencyListNums => "neg_sp_adjacency_list_nums"@,
        LayerFile::NegSPAdjacencyListBits => "neg_sp_adjacency_list_bits"@,
        LayerFile::NegSPAdjacencyListBitIndexBlocks => "neg_sp_adjacency_list_bit_index_blocks"@,
        LayerFile::NegSPAdjacencyListBitIndexSBlocks => "neg_sp_adjacency_list_bit_index_sblocks"@,
        LayerFile::NegSpOAdjacencyListNums => "neg_sp_o_adjacency_list_nums"@,
        LayerFile::NegSpOAdjacencyListBits => "neg_sp_o_adjacency_list_bits"@,
        LayerFile::NegSpOAdjacencyListBitIndexBlocks => "neg_sp_o_adjacency_list_bit_index_blocks"@,
        LayerFile::NegSpOAdjacencyListBitIndexSBlocks => "neg_sp_o_adjacency_list_bit_index_sblocks"@,
        LayerFile::NegOPsAdjacencyListNums => "neg_o_ps_adjacency_list_nums"@,
        LayerFile::NegOPsAdjacencyListBits => "neg_o_ps_adjacency_list_bits"@,
        LayerFile::NegOPsAdjacencyListBitIndexBlocks => "neg_o_ps_adjacency_list_bit_index_blocks"@,
        LayerFile::NegOPsAdjacencyListBitIndexSBlocks => "neg_o_ps_adjacency_list_bit_index_sblocks"@,
        LayerFile::NegPredicateWaveletTreeBits => "neg_predicate_wavelet_tree_bits"@,
        LayerFile::NegPredicateWaveletTreeBitIndexBlocks => "neg_predicate_wavelet_tree_bit_index_blocks"@,
        LayerFile::NegPredicateWaveletTreeBitIndexSBlocks => "neg_predicate_wavelet_tree_bit_index_sblocks"@,
        LayerFile::Parent => "parent"@,
    }
}

/// Whether two strings hold the same characters.
pub fn text_eq(a: &str, b: &str) -> (r: bool)
    ensures
        r == (a@ == b@),
{
    let n = a.unicode_len();
    if n != b.unicode_len() {
        return false;
    }
    let mut i: usize = 0;
    while i < n
        invariant
            n == a@.len(),
            n == b@.len(),
            0 <= i <= n,
            forall|j: int| 0 <= j < i ==> a@[j] == b@[j],
        decreases n - i,
    {
        if a.get_char(i) != b.get_char(i) {
            return false;
        }
        i = i + 1;
    }
    assert(a@ =~= b@);
    true
}

/// The sub-file that a token names, if any.
pub fn file_name_to_enum(name: &str) -> (r: Option<LayerFile>)
    ensures
        r matches Some(f) ==> file_token(f) == name@,
        r is None ==> forall|f: LayerFile| file_token(f) != name@,
{
    if text_eq(name, "node_dictionary_blocks") {
        return Some(LayerFile::NodeDictionaryBlocks);
    }
    if text_eq(name, "node_dictionary_offsets") {
        return Some(LayerFile::NodeDictionaryOffsets);
    }
    if text_eq(name, "predicate_dictionary_blocks") {
        return Some(LayerFile::PredicateDictionaryBlocks);
    }
    if text_eq(name, "predicate_dictionary_offsets") {
        return Some(LayerFile::PredicateDictionaryOffsets);
    }
    if text_eq(name, "value_dictionary_types_present") {
        return Some(LayerFile::ValueDictionaryTypesPresent);
    }
    if text_eq(name, "value_dictionary_type_offsets") {
        return Some(LayerFile::ValueDictionaryTypeOffsets);
    }
    if text_eq(name, "value_dictionary_blocks") {
        return Some(LayerFile::ValueDictionaryBlocks);
    }
    if text_eq(name, "value_dictionary_offsets") {
        return Some(LayerFile::ValueDictionaryOffsets);
    }
    if text_eq(name, "node_value_id_map_bits") {
        return Some(LayerFile::NodeValueIdMapBits);
    }
    if text_eq(name, "node_value_id_map_bit_index_blocks") {
        return Some(LayerFile::NodeValueIdMapBitIndexBlocks);
    }
    if text_eq(name, "node_value_id_map_bit_index_sblocks") {
        return Some(LayerFile::NodeValueIdMapBitIndexSBlocks);
    }
    if text_eq(name, "predicate_id_map_bits") {
        return Some(LayerFile::PredicateIdMapBits);
    }
    if text_eq(name, "predicate_id_map_bit_index_blocks") {
        return Some(LayerFile::PredicateIdMapBitIndexBlocks);
    }
    if text_eq(name, "predicate_id_map_bit_index_sblocks") {
        return Some(LayerFile::PredicateIdMapBitIndexSBlocks);
    }
    if text_eq(name, "pos_subjects") {
        return Some(LayerFile::PosSubjects);
    }
    if text_eq(name, "pos_objects") {
        return Some(LayerFile::PosObjects);
    }
    if text_eq(name, "neg_subjects") {
        return Some(LayerFile::NegSubjects);
    }
    if text_eq(name, "neg_objects") {
        return Some(LayerFile::NegObjects);
    }
    if text_eq(name, "pos_sp_adjacency_list_nums") {
        return Some(LayerFile::PosSPAdjacencyListNums);
    }
    if text_eq(name, "pos_sp_adjacency_list_bits") {
        return Some(LayerFile::PosSPAdjacencyListBits);
    }
    if text_eq(name, "pos_sp_adjacency_list_bit_index_blocks") {
        return Some(LayerFile::PosSPAdjacencyListBitIndexBlocks);
    }
    if text_eq(name, "pos_sp_adjacency_list_bit_index_sblocks") {
        return Some(LayerFile::PosSPAdjacencyListBitIndexSBlocks);
    }
    if text_eq(name, "pos_sp_o_adjacency_list_nums") {
        return Some(LayerFile::PosSpOAdjacencyListNums);
    }
    if text_eq(name, "pos_sp_o_adjacency_list_bits") {
        return Some(LayerFile::PosSpOAdjacencyListBits);
    }
    if text_eq(name, "pos_sp_o_adjacency_list_bit_index_blocks") {
        return Some(LayerFile::PosSpOAdjacencyListBitIndexBlocks);
    }
    if text_eq(name, "pos_sp_o_adjacency_list_bit_index_sblocks") {
        return Some(LayerFile::PosSpOAdjacencyListBitIndexSBlocks);
    }
    if text_eq(name, "pos_o_ps_adjacency_list_nums") {
        return Some(LayerFile::PosOPsAdjacencyListNums);
    }
    if text_eq(name, "pos_o_ps_adjacency_list_bits") {
        return Some(LayerFile::PosOPsAdjacencyListBits);
    }
    if text_eq(name, "pos_o_ps_adjacency_list_bit_index_blocks") {
        return Some(LayerFile::PosOPsAdjacencyListBitIndexBlocks);
    }
    if text_eq(name, "pos_o_ps_adjacency_list_bit_index_sblocks") {
        return Some(LayerFile::PosOPsAdjacencyListBitIndexSBlocks);
    }
    if text_eq(name, "pos_predicate_wavelet_tree_bits") {
        return Some(LayerFile::PosPredicateWaveletTreeBits);
    }
    if text_eq(name, "pos_predicate_wavelet_tree_bit_index_blocks") {
        return Some(LayerFile::PosPredicateWaveletTreeBitIndexBlocks);
    }
    if text_eq(name, "pos_predicate_wavelet_tree_bit_index_sblocks") {
        return Some(LayerFile::PosPredicateWaveletTreeBitIndexSBlocks);
    }
    if text_eq(name, "neg_sp_adjacency_list_nums") {
        return Some(LayerFile::NegSPAdjacencyListNums);
    }
    if text_eq(name, "neg_sp_adjacency_list_bits") {
        return Some(LayerFile::NegSPAdjacencyListBits);
    }
    if text_eq(name, "neg_sp_adjacency_list_bit_index_blocks") {
        return Some(LayerFile::NegSPAdjacencyListBitIndexBlocks);
    }
    if text_eq(name, "neg_sp_adjacency_list_bit_index_sblocks") {
        return Some(LayerFile::NegSPAdjacencyListBitIndexSBlocks);
    }
    if text_eq(name, "neg_sp_o_adjacency_list_nums") {
        return Some(LayerFile::NegSpOAdjacencyListNums);
    }
    if text_eq(name, "neg_sp_o_adjacency_list_bits") {
        return Some(LayerFile::NegSpOAdjacencyListBits);
    }
    if text_eq(name, "neg_sp_o_adjacency_list_bit_index_blocks") {
        return Some(LayerFile::NegSpOAdjacencyListBitIndexBlocks);
    }
    if text_eq(name, "neg_sp_o_adjacency_list_bit_index_sblocks") {
        return Some(LayerFile::NegSpOAdjacencyListBitIndexSBlocks);
    }
    if text_eq(name, "neg_o_ps_adjacency_list_nums") {
        return Some(LayerFile::NegOPsAdjacencyListNums);
    }
    if text_eq(name, "neg_o_ps_adjacency_list_bits") {
        return Some(LayerFile::NegOPsAdjacencyListBits);
    }
    if text_eq(name, "neg_o_ps_adjacency_list_bit_index_blocks") {
        return Some(LayerFile::NegOPsAdjacencyListBitIndexBlocks);
    }
    if text_eq(name, "neg_o_ps_adjacency_list_bit_index_sblocks") {
        return Some(LayerFile::NegOPsAdjacencyListBitIndexSBlocks);
    }
    if text_eq(name, "neg_predicate_wavelet_tree_bits") {
        return Some(LayerFile::NegPredicateWaveletTreeBits);
    }
    if text_eq(name, "neg_predicate_wavelet_tree_bit_index_blocks") {
        return Some(LayerFile::NegPredicateWaveletTreeBitIndexBlocks);
    }
    if text_eq(name, "neg_predicate_wavelet_tree_bit_index_sblocks") {
        return Some(LayerFile::NegPredicateWaveletTreeBitIndexSBlocks);
    }
    if text_eq(name, "parent") {
        return Some(LayerFile::Parent);
    }
    None
}

/// The token of a sub-file.
pub fn file_enum_to_string(file: LayerFile) -> (r: &'static str)
    ensures
        r@ == file_token(file),
{
    match file {
        LayerFile::NodeDictionaryBlocks => "node_dictionary_blocks",
        LayerFile::NodeDictionaryOffsets => "node_dictionary_offsets",
        LayerFile::PredicateDictionaryBlocks => "predicate_dictionary_blocks",
        LayerFile::PredicateDictionaryOffsets => "predicate_dictionary_offsets",
        LayerFile::ValueDictionaryTypesPresent => "value_dictionary_types_present",
        LayerFile::ValueDictionaryTypeOffsets => "value_dictionary_type_offsets",
        LayerFile::ValueDictionaryBlocks => "value_dictionary_blocks",
        LayerFile::ValueDictionaryOffsets => "value_dictionary_offsets",
        LayerFile::NodeValueIdMapBits => "node_value_id_map_bits",
        LayerFile::NodeValueIdMapBitIndexBlocks => "node_value_id_map_bit_index_blocks",
        LayerFile::NodeValueIdMapBitIndexSBlocks => "node_value_id_map_bit_index_sblocks",
        LayerFile::PredicateIdMapBits => "predicate_id_map_bits",
        LayerFile::PredicateIdMapBitIndexBlocks => "predicate_id_map_bit_index_blocks",
        LayerFile::PredicateIdMapBitIndexSBlocks => "predicate_id_map_bit_index_sblocks",
        LayerFile::PosSubjects => "pos_subjects",
        LayerFile::PosObjects => "pos_objects",
        LayerFile::NegSubjects => "neg_subjects",
        LayerFile::NegObjects => "neg_objects",
        LayerFile::PosSPAdjacencyListNums => "pos_sp_adjacency_list_nums",
        LayerFile::PosSPAdjacencyListBits => "pos_sp_adjacency_list_bits",
        LayerFile::PosSPAdjacencyListBitIndexBlocks => "pos_sp_adjacency_list_bit_index_blocks",
        LayerFile::PosSPAdjacencyListBitIndexSBlocks => "pos_sp_adjacency_list_bit_index_sblocks",
        LayerFile::PosSpOAdjacencyListNums => "pos_sp_o_adjacency_list_nums",
        LayerFile::PosSpOAdjacencyListBits => "pos_sp_o_adjacency_list_bits",
        LayerFile::PosSpOAdjacencyListBitIndexBlocks => "pos_sp_o_adjacency_list_bit_index_blocks",
        LayerFile::PosSpOAdjacencyListBitIndexSBlocks => "pos_sp_o_adjacency_list_bit_index_sblocks",
        LayerFile::PosOPsAdjacencyListNums => "pos_o_ps_adjacency_list_nums",
        LayerFile::PosOPsAdjacencyListBits => "pos_o_ps_adjacency_list_bits",
        LayerFile::PosOPsAdjacencyListBitIndexBlocks => "pos_o_ps_adjacency_list_bit_index_blocks",
        LayerFile::PosOPsAdjacencyListBitIndexSBlocks => "pos_o_ps_adjacency_list_bit_index_sblocks",
        LayerFile::PosPredicateWaveletTreeBits => "pos_predicate_wavelet_tree_bits",
        LayerFile::PosPredicateWaveletTreeBitIndexBlocks => "pos_predicate_wavelet_tree_bit_index_blocks",
        LayerFile::PosPredicateWaveletTreeBitIndexSBlocks => "pos_predicate_wavelet_tree_bit_index_sblocks",
        LayerFile::NegSPAdjacencyListNums => "neg_sp_adjacency_list_nums",
        LayerFile::NegSPAdjacencyListBits => "neg_sp_adjacency_list_bits",
        LayerFile::NegSPAdjacencyListBitIndexBlocks => "neg_sp_adjacency_list_bit_index_blocks",
        LayerFile::NegSPAdjacencyListBitIndexSBlocks => "neg_sp_adjacency_list_bit_index_sblocks",
        LayerFile::NegSpOAdjacencyListNums => "neg_sp_o_adjacency_list_nums",
        LayerFile::NegSpOAdjacencyListBits => "neg_sp_o_adjacency_list_bits",
        LayerFile::NegSpOAdjacencyListBitIndexBlocks => "neg_sp_o_adjacency_list_bit_index_blocks",
        LayerFile::NegSpOAdjacencyListBitIndexSBlocks => "neg_sp_o_adjacency_list_bit_index_sblocks",
        LayerFile::NegOPsAdjacencyListNums => "neg_o_ps_adjacency_list_nums",
        LayerFile::NegOPsAdjacencyListBits => "neg_o_ps_adjacency_list_bits",
        LayerFile::NegOPsAdjacencyListBitIndexBlocks => "neg_o_ps_adjacency_list_bit_index_blocks",
        LayerFile::NegOPsAdjacencyListBitIndexSBlocks => "neg_o_ps_adjacency_list_bit_index_sblocks",
        LayerFile::NegPredicateWaveletTreeBits => "neg_predicate_wavelet_tree_bits",
        LayerFile::NegPredicateWaveletTreeBitIndexBlocks => "neg_predicate_wavelet_tree_bit_index_blocks",
        LayerFile::NegPredicateWaveletTreeBitIndexSBlocks => "neg_predicate_wavelet_tree_bit_index_sblocks",
        LayerFile::Parent => "parent",
    }
}

pub open spec fn char_at(s: Seq<char>, i: int) -> char {
    if 0 <= i < s.len() {
        s[i]
    } else {
        ' '
    }
}

/// The length of a token and three of its characters, which together tell
/// the tokens apart.
pub open spec fn token_key(s: Seq<char>) -> (int, char, char, char) {
    (s.len() as int, char_at(s, 0), char_at(s, 5), char_at(s, 24))
}

pub open spec fn key_to_file(k: (int, char, char, char)) -> Option<LayerFile> {
    if k == (22int, 'n', 'd', ' ') {
        Some(LayerFile::NodeDictionaryBlocks)
    } else
    if k == (23int, 'n', 'd', ' ') {
        Some(LayerFile::NodeDictionaryOffsets)
    } else
    if k == (27int, 'p', 'c', 'c') {
        Some(LayerFile::PredicateDictionaryBlocks)
    } else
    if k == (28int, 'p', 'c', 's') {
        Some(LayerFile::PredicateDictionaryOffsets)
    } else
    if k == (30int, 'v', '_', 'r') {
        Some(LayerFile::ValueDictionaryTypesPresent)
    } else
    if k == (29int, 'v', '_', 'f') {
        Some(LayerFile::ValueDictionaryTypeOffsets)
    } else
    if k == (23int, 'v', '_', ' ') {
        Some(LayerFile::ValueDictionaryBlocks)
    } else
    if k == (24int, 'v', '_', ' ') {
        Some(LayerFile::ValueDictionaryOffsets)
    } else
    if k == (22int, 'n', 'v', ' ') {
        Some(LayerFile::NodeValueIdMapBits)
    } else
    if k == (34int, 'n', 'v', 'd') {
        Some(LayerFile::NodeValueIdMapBitIndexBlocks)
    } else
    if k == (35int, 'n', 'v', 'd') {
        Some(LayerFile::NodeValueIdMapBitIndexSBlocks)
    } else
    if k == (21int, 'p', 'c', ' ') {
        Some(LayerFile::PredicateIdMapBits)
    } else
    if k == (33int, 'p', 'c', 'e') {
        Some(LayerFile::PredicateIdMapBitIndexBlocks)
    } else
    if k == (34int, 'p', 'c', 'e') {
        Some(LayerFile::PredicateIdMapBitIndexSBlocks)
    } else
    if k == (12int, 'p', 'u', ' ') {
        Some(LayerFile::PosSubjects)
    } else
    if k == (11int, 'p', 'b', ' ') {
        Some(LayerFile::PosObjects)
    } else
    if k == (12int, 'n', 'u', ' ') {
        Some(LayerFile::NegSubjects)
    } else
    if k == (11int, 'n', 'b', ' ') {
        Some(LayerFile::NegObjects)
    } else
    if k == (26int, 'p', 'p', 'm') {
        Some(LayerFile::PosSPAdjacencyListNums)
    } else
    if k == (26int, 'p', 'p', 't') {
        Some(LayerFile::PosSPAdjacencyListBits)
    } else
    if k == (38int, 'p', 'p', 't') {
        Some(LayerFile::PosSPAdjacencyListBitIndexBlocks)
    } else
    if k == (39int, 'p', 'p', 't') {
        Some(LayerFile::PosSPAdjacencyListBitIndexSBlocks)
    } else
    if k == (28int, 'p', 'p', 'n') {
        Some(LayerFile::PosSpOAdjacencyListNums)
    } else
    if k == (28int, 'p', 'p', 'b') {
        Some(LayerFile::PosSpOAdjacencyListBits)
    } else
    if k == (40int, 'p', 'p', 'b') {
        Some(LayerFile::PosSpOAdjacencyListBitIndexBlocks)
    } else
    if k == (41int, 'p', 'p', 'b') {
        Some(LayerFile::PosSpOAdjacencyListBitIndexSBlocks)
    } else
    if k == (28int, 'p', '_', 'n') {
        Some(LayerFile::PosOPsAdjacencyListNums)
    } else
    if k == (28int, 'p', '_', 'b') {
        Some(LayerFile::PosOPsAdjacencyListBits)
    } else
    if k == (40int, 'p', '_', 'b') {
        Some(LayerFile::PosOPsAdjacencyListBitIndexBlocks)
    } else
    if k == (41int, 'p', '_', 'b') {
        Some(LayerFile::PosOPsAdjacencyListBitIndexSBlocks)
    } else
    if k == (31int, 'p', 'r', 'e') {
        Some(LayerFile::PosPredicateWaveletTreeBits)
    } else
    if k == (43int, 'p', 'r', 'e') {
        Some(LayerFile::PosPredicateWaveletTreeBitIndexBlocks)
    } else
    if k == (44int, 'p', 'r', 'e') {
        Some(LayerFile::PosPredicateWaveletTreeBitIndexSBlocks)
    } else
    if k == (26int, 'n', 'p', 'm') {
        Some(LayerFile::NegSPAdjacencyListNums)
    } else
    if k == (26int, 'n', 'p', 't') {
        Some(LayerFile::NegSPAdjacencyListBits)
    } else
    if k == (38int, 'n', 'p', 't') {
        Some(LayerFile::NegSPAdjacencyListBitIndexBlocks)
    } else
    if k == (39int, 'n', 'p', 't') {
        Some(LayerFile::NegSPAdjacencyListBitIndexSBlocks)
    } else
    if k == (28int, 'n', 'p', 'n') {
        Some(LayerFile::NegSpOAdjacencyListNums)
    } else
    if k == (28int, 'n', 'p', 'b') {
        Some(LayerFile::NegSpOAdjacencyListBits)
    } else
    if k == (40int, 'n', 'p', 'b') {
        Some(LayerFile::NegSpOAdjacencyListBitIndexBlocks)
    } else
    if k == (41int, 'n', 'p', 'b') {
        Some(LayerFile::NegSpOAdjacencyListBitIndexSBlocks)
    } else
    if k == (28int, 'n', '_', 'n') {
        Some(LayerFile::NegOPsAdjacencyListNums)
    } else
    if k == (28int, 'n', '_', 'b') {
        Some(LayerFile::NegOPsAdjacencyListBits)
    } else
    if k == (40int, 'n', '_', 'b') {
        Some(LayerFile::NegOPsAdjacencyListBitIndexBlocks)
    } else
    if k == (41int, 'n', '_', 'b') {
        Some(LayerFile::NegOPsAdjacencyListBitIndexSBlocks)
    } else
    if k == (31int, 'n', 'r', 'e') {
        Some(LayerFile::NegPredicateWaveletTreeBits)
    } else
    if k == (43int, 'n', 'r', 'e') {
        Some(LayerFile::NegPredicateWaveletTreeBitIndexBlocks)
    } else
    if k == (44int, 'n', 'r', 'e') {
        Some(LayerFile::NegPredicateWaveletTreeBitIndexSBlocks)
    } else
    if k == (6int, 'p', 't', ' ') {
        Some(LayerFile::Parent)
    } else {
        None
    }
}

proof fn lemma_key_of_token(f: LayerFile)
    ensures
        key_to_file(token_key(file_token(f))) == Some(f),
{
    match f {
        LayerFile::NodeDictionaryBlocks => reveal_strlit("node_dictionary_blocks"),
        LayerFile::NodeDictionaryOffsets => reveal_strlit("node_dictionary_offsets"),
        LayerFile::PredicateDictionaryBlocks => reveal_strlit("predicate_dictionary_blocks"),
        LayerFile::PredicateDictionaryOffsets => reveal_strlit("predicate_dictionary_offsets"),
        LayerFile::ValueDictionaryTypesPresent => reveal_strlit("value_dictionary_types_present"),
        LayerFile::ValueDictionaryTypeOffsets => reveal_strlit("value_dictionary_type_offsets"),
        LayerFile::ValueDictionaryBlocks => reveal_strlit("value_dictionary_blocks"),
        LayerFile::ValueDictionaryOffsets => reveal_strlit("value_dictionary_offsets"),
        LayerFile::NodeValueIdMapBits => reveal_strlit("node_value_id_map_bits"),
        LayerFile::NodeValueIdMapBitIndexBlocks => reveal_strlit("node_value_id_map_bit_index_blocks"),
        LayerFile::NodeValueIdMapBitIndexSBlocks => reveal_strlit("node_value_id_map_bit_index_sblocks"),
        LayerFile::PredicateIdMapBits => reveal_strlit("predicate_id_map_bits"),
        LayerFile::PredicateIdMapBitIndexBlocks => reveal_strlit("predicate_id_map_bit_index_blocks"),
        LayerFile::PredicateIdMapBitIndexSBlocks => reveal_strlit("predicate_id_map_bit_index_sblocks"),
        LayerFile::PosSubjects => reveal_strlit("pos_subjects"),
        LayerFile::PosObjects => reveal_strlit("pos_objects"),
        LayerFile::NegSubjects => reveal_strlit("neg_subjects"),
        LayerFile::NegObjects => reveal_strlit("neg_objects"),
        LayerFile::PosSPAdjacencyListNums => reveal_strlit("pos_sp_adjacency_list_nums"),
        LayerFile::PosSPAdjacencyListBits => reveal_strlit("pos_sp_adjacency_list_bits"),
        LayerFile::PosSPAdjacencyListBitIndexBlocks => reveal_strlit("pos_sp_adjacency_list_bit_index_blocks"),
        LayerFile::PosSPAdjacencyListBitIndexSBlocks => reveal_strlit("pos_sp_adjacency_list_bit_index_sblocks"),
        LayerFile::PosSpOAdjacencyListNums => reveal_strlit("pos_sp_o_adjacency_list_nums"),
        LayerFile::PosSpOAdjacencyListBits => reveal_strlit("pos_sp_o_adjacency_list_bits"),
        LayerFile::PosSpOAdjacencyListBitIndexBlocks => reveal_strlit("pos_sp_o_adjacency_list_bit_index_blocks"),
        LayerFile::PosSpOAdjacencyListBitIndexSBlocks => reveal_strlit("pos_sp_o_adjacency_list_bit_index_sblocks"),
        LayerFile::PosOPsAdjacencyListNums => reveal_strlit("pos_o_ps_adjacency_list_nums"),
        LayerFile::PosOPsAdjacencyListBits => reveal_strlit("pos_o_ps_adjacency_list_bits"),
        LayerFile::PosOPsAdjacencyListBitIndexBlocks => reveal_strlit("pos_o_ps_adjacency_list_bit_index_blocks"),
        LayerFile::PosOPsAdjacencyListBitIndexSBlocks => reveal_strlit("pos_o_ps_adjacency_list_bit_index_sblocks"),
        LayerFile::PosPredicateWaveletTreeBits => reveal_strlit("pos_predicate_wavelet_tree_bits"),
        LayerFile::PosPredicateWaveletTreeBitIndexBlocks => reveal_strlit("pos_predicate_wavelet_tree_bit_index_blocks"),
        LayerFile::PosPredicateWaveletTreeBitIndexSBlocks => reveal_strlit("pos_predicate_wavelet_tree_bit_index_sblocks"),
        LayerFile::NegSPAdjacencyListNums => reveal_strlit("neg_sp_adjacency_list_nums"),
        LayerFile::NegSPAdjacencyListBits => reveal_strlit("neg_sp_adjacency_list_bits"),
        LayerFile::NegSPAdjacencyListBitIndexBlocks => reveal_strlit("neg_sp_adjacency_list_bit_index_blocks"),
        LayerFile::NegSPAdjacencyListBitIndexSBlocks => reveal_strlit("neg_sp_adjacency_list_bit_index_sblocks"),
        LayerFile::NegSpOAdjacencyListNums => reveal_strlit("neg_sp_o_adjacency_list_nums"),
        LayerFile::NegSpOAdjacencyListBits => reveal_strlit("neg_sp_o_adjacency_list_bits"),
        LayerFile::NegSpOAdjacencyListBitIndexBlocks => reveal_strlit("neg_sp_o_adjacency_list_bit_index_blocks"),
        LayerFile::NegSpOAdjacencyListBitIndexSBlocks => reveal_strlit("neg_sp_o_adjacency_list_bit_index_sblocks"),
        LayerFile::NegOPsAdjacencyListNums => reveal_strlit("neg_o_ps_adjacency_list_nums"),
        LayerFile::NegOPsAdjacencyListBits => reveal_strlit("neg_o_ps_adjacency_list_bits"),
        LayerFile::NegOPsAdjacencyListBitIndexBlocks => reveal_strlit("neg_o_ps_adjacency_list_bit_index_blocks"),
        LayerFile::NegOPsAdjacencyListBitIndexSBlocks => reveal_strlit("neg_o_ps_adjacency_list_bit_index_sblocks"),
        LayerFile::NegPredicateWaveletTreeBits => reveal_strlit("neg_predicate_wavelet_tree_bits"),
        LayerFile::NegPredicateWaveletTreeBitIndexBlocks => reveal_strlit("neg_predicate_wavelet_tree_bit_index_blocks"),
        LayerFile::NegPredicateWaveletTreeBitIndexSBlocks => reveal_strlit("neg_predicate_wavelet_tree_bit_index_sblocks"),
        LayerFile::Parent => reveal_strlit("parent"),
    }
}

/// Each token names one sub-file: no two sub-files share a token, so the
/// token table can be read both ways.
pub proof fn lemma_file_token_injective(f: LayerFile, g: LayerFile)
    requires
        file_token(f) == file_token(g),
    ensures
        f == g,
{
    lemma_key_of_token(f);
    lemma_key_of_token(g);
}

} // verus!
