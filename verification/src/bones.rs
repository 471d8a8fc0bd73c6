//! The bones the overlay draws: where each sits in a pawn's bone array, and
//! which pairs are joined by a line.
use vstd::prelude::*;
use vstd::string::*;
use crate::offsets;

verus! {

/// A bone of a player's skeleton.
#[derive(PartialEq, Eq, Structural, Clone, Copy, Debug)]
pub enum Bone {
    Head,
    Neck0,
    Spine1,
    Spine2,
    Pelvis,
    ArmUpperL,
    ArmLowerL,
    HandL,
    ArmUpperR,
    ArmLowerR,
    HandR,
    LegUpperL,
    LegLowerL,
    AnkleL,
    LegUpperR,
    LegLowerR,
    AnkleR,
}

/// The bone's slot in the pawn's bone array.
pub open spec fn bone_index(b: Bone) -> usize {
    match b {
        Bone::Head => 6,
        Bone::Neck0 => 5,
        Bone::Spine1 => 4,
        Bone::Spine2 => 2,
        Bone::Pelvis => 0,
        Bone::ArmUpperL => 8,
        Bone::ArmLowerL => 9,
        Bone::HandL => 10,
        Bone::ArmUpperR => 13,
        Bone::ArmLowerR => 14,
        Bone::HandR => 15,
        Bone::LegUpperL => 22,
        Bone::LegLowerL => 23,
        Bone::AnkleL => 24,
        Bone::LegUpperR => 25,
        Bone::LegLowerR => 26,
        Bone::AnkleR => 27,
    }
}

/// The name the game's skeletons give a bone.
pub open spec fn bone_name(b: Bone) -> Seq<char> {
    match b {
        Bone::Head => seq!['h', 'e', 'a', 'd'],
        Bone::Neck0 => seq!['n', 'e', 'c', 'k', '_', '0'],
        Bone::Spine1 => seq!['s', 'p', 'i', 'n', 'e', '_', '1'],
        Bone::Spine2 => seq!['s', 'p', 'i', 'n', 'e', '_', '2'],
        Bone::Pelvis => seq!['p', 'e', 'l', 'v', 'i', 's'],
        Bone::ArmUpperL => seq!['a', 'r', 'm', '_', 'u', 'p', 'p', 'e', 'r', '_', 'L'],
        Bone::ArmLowerL => seq!['a', 'r', 'm', '_', 'l', 'o', 'w', 'e', 'r', '_', 'L'],
        Bone::HandL => seq!['h', 'a', 'n', 'd', '_', 'L'],
        Bone::ArmUpperR => seq!['a', 'r', 'm', '_', 'u', 'p', 'p', 'e', 'r', '_', 'R'],
        Bone::ArmLowerR => seq!['a', 'r', 'm', '_', 'l', 'o', 'w', 'e', 'r', '_', 'R'],
        Bone::HandR => seq!['h', 'a', 'n', 'd', '_', 'R'],
        Bone::LegUpperL => seq!['l', 'e', 'g', '_', 'u', 'p', 'p', 'e', 'r', '_', 'L'],
        Bone::LegLowerL => seq!['l', 'e', 'g', '_', 'l', 'o', 'w', 'e', 'r', '_', 'L'],
        Bone::AnkleL => seq!['a', 'n', 'k', 'l', 'e', '_', 'L'],
        Bone::LegUpperR => seq!['l', 'e', 'g', '_', 'u', 'p', 'p', 'e', 'r', '_', 'R'],
        Bone::LegLowerR => seq!['l', 'e', 'g', '_', 'l', 'o', 'w', 'e', 'r', '_', 'R'],
        Bone::AnkleR => seq!['a', 'n', 'k', 'l', 'e', '_', 'R'],
    }
}

/// Every bone the overlay reads, in the order of its table.
pub open spec fn bone_list() -> Seq<Bone> {
    seq![
        Bone::Head,
        Bone::Neck0,
        Bone::Spine1,
        Bone::Spine2,
        Bone::Pelvis,
        Bone::ArmUpperL,
        Bone::ArmLowerL,
        Bone::HandL,
        Bone::ArmUpperR,
        Bone::ArmLowerR,
        Bone::HandR,
        Bone::LegUpperL,
        Bone::LegLowerL,
        Bone::AnkleL,
        Bone::LegUpperR,
        Bone::LegLowerR,
        Bone::AnkleR,
    ]
}

/// The pairs of bones joined by a line, neck down to the ankles.
pub open spec fn connection_list() -> Seq<(Bone, Bone)> {
    seq![
        (Bone::Neck0, Bone::Spine1),
        (Bone::Spine1, Bone::Spine2),
        (Bone::Spine2, Bone::Pelvis),
        (Bone::Spine1, Bone::ArmUpperL),
        (Bone::ArmUpperL, Bone::ArmLowerL),
        (Bone::ArmLowerL, Bone::HandL),
        (Bone::Spine1, Bone::ArmUpperR),
        (Bone::ArmUpperR, Bone::ArmLowerR),
        (Bone::ArmLowerR, Bone::HandR),
        (Bone::Pelvis, Bone::LegUpperL),
        (Bone::LegUpperL, Bone::LegLowerL),
        (Bone::LegLowerL, Bone::AnkleL),
        (Bone::Pelvis, Bone::LegUpperR),
        (Bone::LegUpperR, Bone::LegLowerR),
        (Bone::LegLowerR, Bone::AnkleR),
    ]
}

/// Where a bone's entry starts, from the start of the bone array.
pub open spec fn bone_offset(b: Bone) -> int {
    bone_index(b) * offsets::bone_stride
}

/// The address of a bone's entry in the array at `base`, if it fits in `usize`.
pub open spec fn bone_address(base: usize, b: Bone) -> Option<usize> {
    if base + bone_offset(b) <= usize::MAX {
        Some((base + bone_offset(b)) as usize)
    } else {
        None
    }
}

/// The addresses of every bone of the array at `base`, in table order.
pub open spec fn bone_addresses(base: usize) -> Option<Seq<(Bone, usize)>> {
    if forall|k: int| 0 <= k < bone_list().len() ==> bone_address(base, #[trigger] bone_list()[k]) is Some {
        Some(bone_list().map_values(|b: Bone| (b, bone_address(base, b)->0)))
    } else {
        None
    }
}

impl Bone {
    /// The bone's slot in the pawn's bone array.
    pub fn index(&self) -> (i: usize)
        ensures
            i == bone_index(*self),
    {
        match self {
            Bone::Head => 6,
            Bone::Neck0 => 5,
            Bone::Spine1 => 4,
            Bone::Spine2 => 2,
            Bone::Pelvis => 0,
            Bone::ArmUpperL => 8,
            Bone::ArmLowerL => 9,
            Bone::HandL => 10,
            Bone::ArmUpperR => 13,
            Bone::ArmLowerR => 14,
            Bone::HandR => 15,
            Bone::LegUpperL => 22,
            Bone::LegLowerL => 23,
            Bone::AnkleL => 24,
            Bone::LegUpperR => 25,
            Bone::LegLowerR => 26,
            Bone::AnkleR => 27,
        }
    }

    /// The name the game's skeletons give the bone.
    pub fn name(&self) -> (n: &'static str)
        ensures
            n@ == bone_name(*self),
    {
        match self {
            Bone::Head => {
                let n = "head";
                proof {
                    reveal_strlit("head");
                    assert(n@ =~= bone_name(Bone::Head));
                }
                n
            },
            Bone::Neck0 => {
                let n = "neck_0";
                proof {
                    reveal_strlit("neck_0");
                    assert(n@ =~= bone_name(Bone::Neck0));
                }
                n
            },
            Bone::Spine1 => {
                let n = "spine_1";
                proof {
                    reveal_strlit("spine_1");
                    assert(n@ =~= bone_name(Bone::Spine1));
                }
                n
            },
            Bone::Spine2 => {
                let n = "spine_2";
                proof {
                    reveal_strlit("spine_2");
                    assert(n@ =~= bone_name(Bone::Spine2));
                }
                n
            },
            Bone::Pelvis => {
                let n = "pelvis";
                proof {
                    reveal_strlit("pelvis");
                    assert(n@ =~= bone_name(Bone::Pelvis));
                }
                n
            },
            Bone::ArmUpperL => {
                let n = "arm_upper_L";
                proof {
                    reveal_strlit("arm_upper_L");
                    assert(n@ =~= bone_name(Bone::ArmUpperL));
                }
                n
            },
            Bone::ArmLowerL => {
                let n = "arm_lower_L";
                proof {
                    reveal_strlit("arm_lower_L");
                    assert(n@ =~= bone_name(Bone::ArmLowerL));
                }
                n
            },
            Bone::HandL => {
                let n = "hand_L";
                proof {
                    reveal_strlit("hand_L");
                    assert(n@ =~= bone_name(Bone::HandL));
                }
                n
            },
            Bone::ArmUpperR => {
                let n = "arm_upper_R";
                proof {
                    reveal_strlit("arm_upper_R");
                    assert(n@ =~= bone_name(Bone::ArmUpperR));
                }
                n
            },
            Bone::ArmLowerR => {
                let n = "arm_lower_R";
                proof {
                    reveal_strlit("arm_lower_R");
                    assert(n@ =~= bone_name(Bone::ArmLowerR));
                }
                n
            },
            Bone::HandR => {
                let n = "hand_R";
                proof {
                    reveal_strlit("hand_R");
                    assert(n@ =~= bone_name(Bone::HandR));
                }
                n
            },
            Bone::LegUpperL => {
                let n = "leg_upper_L";
                proof {
                    reveal_strlit("leg_upper_L");
                    assert(n@ =~= bone_name(Bone::LegUpperL));
                }
                n
            },
            Bone::LegLowerL => {
                let n = "leg_lower_L";
                proof {
                    reveal_strlit("leg_lower_L");
                    assert(n@ =~= bone_name(Bone::LegLowerL));
                }
                n
            },
            Bone::AnkleL => {
                let n = "ankle_L";
                proof {
                    reveal_strlit("ankle_L");
                    assert(n@ =~= bone_name(Bone::AnkleL));
                }
                n
            },
            Bone::LegUpperR => {
                let n = "leg_upper_R";
                proof {
                    reveal_strlit("leg_upper_R");
                    assert(n@ =~= bone_name(Bone::LegUpperR));
                }
                n
            },
            Bone::LegLowerR => {
                let n = "leg_lower_R";
                proof {
                    reveal_strlit("leg_lower_R");
                    assert(n@ =~= bone_name(Bone::LegLowerR));
                }
                n
            },
            Bone::AnkleR => {
                let n = "ankle_R";
                proof {
                    reveal_strlit("ankle_R");
                    assert(n@ =~= bone_name(Bone::AnkleR));
                }
                n
            },
        }
    }
}

/// Every bone the overlay reads, in the order of its table.
pub fn all_bones() -> (v: Vec<Bone>)
    ensures
        v@ == bone_list(),
{
    let v = vec![
        Bone::Head,
        Bone::Neck0,
        Bone::Spine1,
        Bone::Spine2,
        Bone::Pelvis,
        Bone::ArmUpperL,
        Bone::ArmLowerL,
        Bone::HandL,
        Bone::ArmUpperR,
        Bone::ArmLowerR,
        Bone::HandR,
        Bone::LegUpperL,
        Bone::LegLowerL,
        Bone::AnkleL,
        Bone::LegUpperR,
        Bone::LegLowerR,
        Bone::AnkleR,
    ];
    assert(v@ =~= bone_list());
    v
}

/// The pairs of bones joined by a line.
pub fn bone_connections() -> (v: Vec<(Bone, Bone)>)
    ensures
        v@ == connection_list(),
{
    let v = vec![
        (Bone::Neck0, Bone::Spine1),
        (Bone::Spine1, Bone::Spine2),
        (Bone::Spine2, Bone::Pelvis),
        (Bone::Spine1, Bone::ArmUpperL),
        (Bone::ArmUpperL, Bone::ArmLowerL),
        (Bone::ArmLowerL, Bone::HandL),
        (Bone::Spine1, Bone::ArmUpperR),
        (Bone::ArmUpperR, Bone::ArmLowerR),
        (Bone::ArmLowerR, Bone::HandR),
        (Bone::Pelvis, Bone::LegUpperL),
        (Bone::LegUpperL, Bone::LegLowerL),
        (Bone::LegLowerL, Bone::AnkleL),
        (Bone::Pelvis, Bone::LegUpperR),
        (Bone::LegUpperR, Bone::LegLowerR),
        (Bone::LegLowerR, Bone::AnkleR),
    ];
    assert(v@ =~= connection_list());
    v
}

/// The address of each bone's entry in the bone array at `base`, in table
/// order, or nothing when one of them does not fit in `usize`.
pub fn bone_reads(base: usize) -> (res: Option<Vec<(Bone, usize)>>)
    ensures
        match res {
            Some(v) => bone_addresses(base) == Some(v@),
            None => bone_addresses(base) is None,
        },
{
    let bones = all_bones();
    let mut out: Vec<(Bone, usize)> = Vec::new();
    let mut k: usize = 0;
    while k < bones.len()
        invariant
            bones@ == bone_list(),
            k <= bones@.len(),
            out@.len() == k,
            forall|j: int| 0 <= j < k ==> bone_address(base, #[trigger] bone_list()[j]) is Some,
            forall|j: int|
                0 <= j < k ==> #[trigger] out@[j] == (bone_list()[j], bone_address(
                    base,
                    bone_list()[j],
                )->0),
        decreases bones.len() - k,
    {
        let b = bones[k];
        let step = b.index() * offsets::bone_stride;
        match base.checked_add(step) {
            Some(address) => {
                out.push((b, address));
            },
            None => {
                assert(bone_address(base, bone_list()[k as int]) is None);
                return None;
            },
        }
        k = k + 1;
    }
    assert(out@ =~= bone_list().map_values(|b: Bone| (b, bone_address(base, b)->0)));
    Some(out)
}

/// Every bone there is stands once in the table, and every line joins two
/// bones of the table.
pub proof fn lemma_bone_table_complete()
    ensures
        forall|b: Bone| #[trigger] bone_list().contains(b),
        forall|i: int, j: int|
            0 <= i < j < bone_list().len() ==> bone_list()[i] != bone_list()[j],
        forall|k: int|
            0 <= k < connection_list().len() ==> bone_list().contains(
                (#[trigger] connection_list()[k]).0,
            ) && bone_list().contains(connection_list()[k].1),
{
    assert forall|b: Bone| #[trigger] bone_list().contains(b) by {
        let k: int = match b {
            Bone::Head => 0,
            Bone::Neck0 => 1,
            Bone::Spine1 => 2,
            Bone::Spine2 => 3,
            Bone::Pelvis => 4,
            Bone::ArmUpperL => 5,
            Bone::ArmLowerL => 6,
            Bone::HandL => 7,
            Bone::ArmUpperR => 8,
            Bone::ArmLowerR => 9,
            Bone::HandR => 10,
            Bone::LegUpperL => 11,
            Bone::LegLowerL => 12,
            Bone::AnkleL => 13,
            Bone::LegUpperR => 14,
            Bone::LegLowerR => 15,
            Bone::AnkleR => 16,
        };
        assert(bone_list()[k] == b);
    }
}

/// Distinct bones sit in distinct, non-overlapping entries of the bone array,
/// all within its first 28 entries.
pub proof fn lemma_bone_slots_distinct(a: Bone, b: Bone)
    ensures
        bone_index(a) < 28,
        a != b ==> bone_index(a) != bone_index(b),
        a != b ==> bone_offset(a) + offsets::bone_stride <= bone_offset(b) || bone_offset(b)
            + offsets::bone_stride <= bone_offset(a),
{
}

/// Distinct bones have distinct names.
pub proof fn lemma_bone_names_distinct(a: Bone, b: Bone)
    ensures
        a != b ==> bone_name(a) != bone_name(b),
{
    if a != b && bone_name(a).len() == bone_name(b).len() {
        // Names of equal length differ at their first, fifth, seventh,
        // eleventh or last character.
        let i: int = if bone_name(a)[0] != bone_name(b)[0] {
            0
        } else if bone_name(a).len() > 4 && bone_name(a)[4] != bone_name(b)[4] {
            4
        } else if bone_name(a).len() > 10 && bone_name(a)[10] != bone_name(b)[10] {
            10
        } else if bone_name(a).len() > 6 && bone_name(a)[6] != bone_name(b)[6] {
            6
        } else {
            bone_name(a).len() - 1
        };
        assert(bone_name(a)[i] != bone_name(b)[i]);
    }
}

/// Each bone sits in the game's slot for it, under the game's name for it:
/// `head` 6, `neck_0` 5, `spine_1` 4, `spine_2` 2, `pelvis` 0, `arm_upper_L`
/// 8, `arm_lower_L` 9, `hand_L` 10, `arm_upper_R` 13, `arm_lower_R` 14,
/// `hand_R` 15, `leg_upper_L` 22, `leg_lower_L` 23, `ankle_L` 24,
/// `leg_upper_R` 25, `leg_lower_R` 26, `ankle_R` 27.
pub proof fn lemma_bone_table_slots()
    ensures
        bone_index(Bone::Head) == 6 && bone_name(Bone::Head) == seq!['h', 'e', 'a', 'd'],
        bone_index(Bone::Neck0) == 5 && bone_name(Bone::Neck0) == seq!['n', 'e', 'c', 'k', '_', '0'],
        bone_index(Bone::Spine1) == 4 && bone_name(Bone::Spine1) == seq!['s', 'p', 'i', 'n', 'e', '_', '1'],
        bone_index(Bone::Spine2) == 2 && bone_name(Bone::Spine2) == seq!['s', 'p', 'i', 'n', 'e', '_', '2'],
        bone_index(Bone::Pelvis) == 0 && bone_name(Bone::Pelvis) == seq!['p', 'e', 'l', 'v', 'i', 's'],
        bone_index(Bone::ArmUpperL) == 8 && bone_name(Bone::ArmUpperL) == seq!['a', 'r', 'm', '_', 'u', 'p', 'p', 'e', 'r', '_', 'L'],
        bone_index(Bone::ArmLowerL) == 9 && bone_name(Bone::ArmLowerL) == seq!['a', 'r', 'm', '_', 'l', 'o', 'w', 'e', 'r', '_', 'L'],
        bone_index(Bone::HandL) == 10 && bone_name(Bone::HandL) == seq!['h', 'a', 'n', 'd', '_', 'L'],
        bone_index(Bone::ArmUpperR) == 13 && bone_name(Bone::ArmUpperR) == seq!['a', 'r', 'm', '_', 'u', 'p', 'p', 'e', 'r', '_', 'R'],
        bone_index(Bone::ArmLowerR) == 14 && bone_name(Bone::ArmLowerR) == seq!['a', 'r', 'm', '_', 'l', 'o', 'w', 'e', 'r', '_', 'R'],
        bone_index(Bone::HandR) == 15 && bone_name(Bone::HandR) == seq!['h', 'a', 'n', 'd', '_', 'R'],
        bone_index(Bone::LegUpperL) == 22 && bone_name(Bone::LegUpperL) == seq!['l', 'e', 'g', '_', 'u', 'p', 'p', 'e', 'r', '_', 'L'],
        bone_index(Bone::LegLowerL) == 23 && bone_name(Bone::LegLowerL) == seq!['l', 'e', 'g', '_', 'l', 'o', 'w', 'e', 'r', '_', 'L'],
        bone_index(Bone::AnkleL) == 24 && bone_name(Bone::AnkleL) == seq!['a', 'n', 'k', 'l', 'e', '_', 'L'],
        bone_index(Bone::LegUpperR) == 25 && bone_name(Bone::LegUpperR) == seq!['l', 'e', 'g', '_', 'u', 'p', 'p', 'e', 'r', '_', 'R'],
        bone_index(Bone::LegLowerR) == 26 && bone_name(Bone::LegLowerR) == seq!['l', 'e', 'g', '_', 'l', 'o', 'w', 'e', 'r', '_', 'R'],
        bone_index(Bone::AnkleR) == 27 && bone_name(Bone::AnkleR) == seq!['a', 'n', 'k', 'l', 'e', '_', 'R'],
{
}

/// A bone's entry in the array at `base` starts 32 bytes per slot in: at
/// `base + 32 * slot`, when that fits in `usize`.
pub proof fn lemma_bone_address(base: usize, b: Bone)
    ensures
        bone_address(base, b) == (if base + 32 * bone_index(b) <= usize::MAX {
            Some((base + 32 * bone_index(b)) as usize)
        } else {
            None::<usize>
        }),
{
}

/// The lines of the skeleton join, by the game's bone names: neck_0 to
/// spine_1, spine_1 to spine_2, spine_2 to pelvis, then each arm from
/// spine_1 (upper arm, lower arm, hand) and each leg from the pelvis (upper
/// leg, lower leg, ankle), left before right.
pub proof fn lemma_bone_connections()
    ensures
        connection_list().len() == 15,
        bone_name(connection_list()[0].0) == seq!['n', 'e', 'c', 'k', '_', '0'] && bone_name(connection_list()[0].1) == seq!['s', 'p', 'i', 'n', 'e', '_', '1'],
        bone_name(connection_list()[1].0) == seq!['s', 'p', 'i', 'n', 'e', '_', '1'] && bone_name(connection_list()[1].1) == seq!['s', 'p', 'i', 'n', 'e', '_', '2'],
        bone_name(connection_list()[2].0) == seq!['s', 'p', 'i', 'n', 'e', '_', '2'] && bone_name(connection_list()[2].1) == seq!['p', 'e', 'l', 'v', 'i', 's'],
        bone_name(connection_list()[3].0) == seq!['s', 'p', 'i', 'n', 'e', '_', '1'] && bone_name(connection_list()[3].1) == seq!['a', 'r', 'm', '_', 'u', 'p', 'p', 'e', 'r', '_', 'L'],
        bone_name(connection_list()[4].0) == seq!['a', 'r', 'm', '_', 'u', 'p', 'p', 'e', 'r', '_', 'L'] && bone_name(connection_list()[4].1) == seq!['a', 'r', 'm', '_', 'l', 'o', 'w', 'e', 'r', '_', 'L'],
        bone_name(connection_list()[5].0) == seq!['a', 'r', 'm', '_', 'l', 'o', 'w', 'e', 'r', '_', 'L'] && bone_name(connection_list()[5].1) == seq!['h', 'a', 'n', 'd', '_', 'L'],
        bone_name(connection_list()[6].0) == seq!['s', 'p', 'i', 'n', 'e', '_', '1'] && bone_name(connection_list()[6].1) == seq!['a', 'r', 'm', '_', 'u', 'p', 'p', 'e', 'r', '_', 'R'],
        bone_name(connection_list()[7].0) == seq!['a', 'r', 'm', '_', 'u', 'p', 'p', 'e', 'r', '_', 'R'] && bone_name(connection_list()[7].1) == seq!['a', 'r', 'm', '_', 'l', 'o', 'w', 'e', 'r', '_', 'R'],
        bone_name(connection_list()[8].0) == seq!['a', 'r', 'm', '_', 'l', 'o', 'w', 'e', 'r', '_', 'R'] && bone_name(connection_list()[8].1) == seq!['h', 'a', 'n', 'd', '_', 'R'],
        bone_name(connection_list()[9].0) == seq!['p', 'e', 'l', 'v', 'i', 's'] && bone_name(connection_list()[9].1) == seq!['l', 'e', 'g', '_', 'u', 'p', 'p', 'e', 'r', '_', 'L'],
        bone_name(connection_list()[10].0) == seq!['l', 'e', 'g', '_', 'u', 'p', 'p', 'e', 'r', '_', 'L'] && bone_name(connection_list()[10].1) == seq!['l', 'e', 'g', '_', 'l', 'o', 'w', 'e', 'r', '_', 'L'],
        bone_name(connection_list()[11].0) == seq!['l', 'e', 'g', '_', 'l', 'o', 'w', 'e', 'r', '_', 'L'] && bone_name(connection_list()[11].1) == seq!['a', 'n', 'k', 'l', 'e', '_', 'L'],
        bone_name(connection_list()[12].0) == seq!['p', 'e', 'l', 'v', 'i', 's'] && bone_name(connection_list()[12].1) == seq!['l', 'e', 'g', '_', 'u', 'p', 'p', 'e', 'r', '_', 'R'],
        bone_name(connection_list()[13].0) == seq!['l', 'e', 'g', '_', 'u', 'p', 'p', 'e', 'r', '_', 'R'] && bone_name(connection_list()[13].1) == seq!['l', 'e', 'g', '_', 'l', 'o', 'w', 'e', 'r', '_', 'R'],
        bone_name(connection_list()[14].0) == seq!['l', 'e', 'g', '_', 'l', 'o', 'w', 'e', 'r', '_', 'R'] && bone_name(connection_list()[14].1) == seq!['a', 'n', 'k', 'l', 'e', '_', 'R'],
{
}

} // verus!
