//! The attack and release of a sidechain, chosen among fixed tables of values.
use vstd::prelude::*;
use crate::error::{ErrorView, SerializationError};
use crate::text::{dec_text, parse_unsigned, spec_parse_unsigned, u64_text};
use crate::values::uint8::Uint8;
use crate::values::XmlValue;

verus! {

/// Index in a table of sidechain values.
pub type TableIndex = Uint8<0, 51, 0>;

/// The attack values, from the slowest to the fastest.
pub open spec fn attack_table(i: int) -> u32 {
    if i == 0 {
        1048576
    } else if i == 1 {
        887876
    } else if i == 2 {
        751804
    } else if i == 3 {
        636588
    } else if i == 4 {
        539028
    } else if i == 5 {
        456420
    } else if i == 6 {
        386472
    } else if i == 7 {
        327244
    } else if i == 8 {
        277092
    } else if i == 9 {
        234624
    } else if i == 10 {
        198668
    } else if i == 11 {
        168220
    } else if i == 12 {
        142440
    } else if i == 13 {
        120612
    } else if i == 14 {
        102128
    } else if i == 15 {
        86476
    } else if i == 16 {
        73224
    } else if i == 17 {
        62000
    } else if i == 18 {
        52500
    } else if i == 19 {
        44452
    } else if i == 20 {
        37640
    } else if i == 21 {
        31872
    } else if i == 22 {
        26988
    } else if i == 23 {
        22852
    } else if i == 24 {
        19348
    } else if i == 25 {
        16384
    } else if i == 26 {
        13876
    } else if i == 27 {
        11748
    } else if i == 28 {
        9948
    } else if i == 29 {
        8428
    } else if i == 30 {
        7132
    } else if i == 31 {
        6040
    } else if i == 32 {
        5112
    } else if i == 33 {
        4328
    } else if i == 34 {
        3668
    } else if i == 35 {
        3104
    } else if i == 36 {
        2628
    } else if i == 37 {
        2224
    } else if i == 38 {
        1884
    } else if i == 39 {
        1596
    } else if i == 40 {
        1352
    } else if i == 41 {
        1144
    } else if i == 42 {
        968
    } else if i == 43 {
        820
    } else if i == 44 {
        696
    } else if i == 45 {
        558
    } else if i == 46 {
        496
    } else if i == 47 {
        420
    } else if i == 48 {
        356
    } else if i == 49 {
        304
    } else if i == 50 {
        256
    } else {
        0
    }
}

/// The release values, from the slowest to the fastest.
pub open spec fn release_table(i: int) -> u32 {
    if i == 0 {
        261528
    } else if i == 1 {
        38632
    } else if i == 2 {
        19552
    } else if i == 3 {
        13184
    } else if i == 4 {
        9872
    } else if i == 5 {
        7840
    } else if i == 6 {
        6472
    } else if i == 7 {
        5480
    } else if i == 8 {
        4736
    } else if i == 9 {
        4152
    } else if i == 10 {
        3680
    } else if i == 11 {
        3296
    } else if i == 12 {
        2976
    } else if i == 13 {
        2704
    } else if i == 14 {
        2472
    } else if i == 15 {
        2264
    } else if i == 16 {
        2088
    } else if i == 17 {
        1928
    } else if i == 18 {
        1792
    } else if i == 19 {
        1664
    } else if i == 20 {
        1552
    } else if i == 21 {
        1448
    } else if i == 22 {
        1352
    } else if i == 23 {
        1272
    } else if i == 24 {
        1192
    } else if i == 25 {
        1120
    } else if i == 26 {
        1056
    } else if i == 27 {
        992
    } else if i == 28 {
        936
    } else if i == 29 {
        880
    } else if i == 30 {
        832
    } else if i == 31 {
        784
    } else if i == 32 {
        744
    } else if i == 33 {
        704
    } else if i == 34 {
        664
    } else if i == 35 {
        624
    } else if i == 36 {
        592
    } else if i == 37 {
        560
    } else if i == 38 {
        528
    } else if i == 39 {
        496
    } else if i == 40 {
        472
    } else if i == 41 {
        448
    } else if i == 42 {
        424
    } else if i == 43 {
        400
    } else if i == 44 {
        376
    } else if i == 45 {
        352
    } else if i == 46 {
        328
    } else if i == 47 {
        312
    } else if i == 48 {
        288
    } else if i == 49 {
        272
    } else if i == 50 {
        256
    } else {
        0
    }
}

fn attack_value(i: u8) -> (r: u32)
    requires
        i < 51,
    ensures
        r == attack_table(i as int),
{
    if i == 0 {
        1048576
    } else if i == 1 {
        887876
    } else if i == 2 {
        751804
    } else if i == 3 {
        636588
    } else if i == 4 {
        539028
    } else if i == 5 {
        456420
    } else if i == 6 {
        386472
    } else if i == 7 {
        327244
    } else if i == 8 {
        277092
    } else if i == 9 {
        234624
    } else if i == 10 {
        198668
    } else if i == 11 {
        168220
    } else if i == 12 {
        142440
    } else if i == 13 {
        120612
    } else if i == 14 {
        102128
    } else if i == 15 {
        86476
    } else if i == 16 {
        73224
    } else if i == 17 {
        62000
    } else if i == 18 {
        52500
    } else if i == 19 {
        44452
    } else if i == 20 {
        37640
    } else if i == 21 {
        31872
    } else if i == 22 {
        26988
    } else if i == 23 {
        22852
    } else if i == 24 {
        19348
    } else if i == 25 {
        16384
    } else if i == 26 {
        13876
    } else if i == 27 {
        11748
    } else if i == 28 {
        9948
    } else if i == 29 {
        8428
    } else if i == 30 {
        7132
    } else if i == 31 {
        6040
    } else if i == 32 {
        5112
    } else if i == 33 {
        4328
    } else if i == 34 {
        3668
    } else if i == 35 {
        3104
    } else if i == 36 {
        2628
    } else if i == 37 {
        2224
    } else if i == 38 {
        1884
    } else if i == 39 {
        1596
    } else if i == 40 {
        1352
    } else if i == 41 {
        1144
    } else if i == 42 {
        968
    } else if i == 43 {
        820
    } else if i == 44 {
        696
    } else if i == 45 {
        558
    } else if i == 46 {
        496
    } else if i == 47 {
        420
    } else if i == 48 {
        356
    } else if i == 49 {
        304
    } else if i == 50 {
        256
    } else {
        0
    }
}

fn release_value(i: u8) -> (r: u32)
    requires
        i < 51,
    ensures
        r == release_table(i as int),
{
    if i == 0 {
        261528
    } else if i == 1 {
        38632
    } else if i == 2 {
        19552
    } else if i == 3 {
        13184
    } else if i == 4 {
        9872
    } else if i == 5 {
        7840
    } else if i == 6 {
        6472
    } else if i == 7 {
        5480
    } else if i == 8 {
        4736
    } else if i == 9 {
        4152
    } else if i == 10 {
        3680
    } else if i == 11 {
        3296
    } else if i == 12 {
        2976
    } else if i == 13 {
        2704
    } else if i == 14 {
        2472
    } else if i == 15 {
        2264
    } else if i == 16 {
        2088
    } else if i == 17 {
        1928
    } else if i == 18 {
        1792
    } else if i == 19 {
        1664
    } else if i == 20 {
        1552
    } else if i == 21 {
        1448
    } else if i == 22 {
        1352
    } else if i == 23 {
        1272
    } else if i == 24 {
        1192
    } else if i == 25 {
        1120
    } else if i == 26 {
        1056
    } else if i == 27 {
        992
    } else if i == 28 {
        936
    } else if i == 29 {
        880
    } else if i == 30 {
        832
    } else if i == 31 {
        784
    } else if i == 32 {
        744
    } else if i == 33 {
        704
    } else if i == 34 {
        664
    } else if i == 35 {
        624
    } else if i == 36 {
        592
    } else if i == 37 {
        560
    } else if i == 38 {
        528
    } else if i == 39 {
        496
    } else if i == 40 {
        472
    } else if i == 41 {
        448
    } else if i == 42 {
        424
    } else if i == 43 {
        400
    } else if i == 44 {
        376
    } else if i == 45 {
        352
    } else if i == 46 {
        328
    } else if i == 47 {
        312
    } else if i == 48 {
        288
    } else if i == 49 {
        272
    } else if i == 50 {
        256
    } else {
        0
    }
}

/// The attack of a sidechain, an entry of `attack_table`.
#[derive(Clone, Copy, PartialEq, Eq, Debug)]
pub struct AttackSidechain {
    index: TableIndex,
}

impl AttackSidechain {
    /// Every index designates an entry of the table.
    #[verifier::type_invariant]
    spec fn in_table(self) -> bool {
        self.index.value() <= 50
    }

    /// The index in the table.
    pub closed spec fn index(self) -> u8 {
        self.index.value()
    }

    /// The entry at an index, seen as a value of this type.
    pub closed spec fn spec_at(i: u8) -> Self {
        AttackSidechain { index: TableIndex::spec_new(i) }
    }

    /// An entry is the one `spec_at` builds from its index.
    pub proof fn lemma_spec_at_index(a: Self)
        ensures
            Self::spec_at(a.index()) == a,
    {
        TableIndex::lemma_spec_new_of_value(a.index);
    }

    /// `spec_at` keeps its index.
    pub proof fn lemma_index_of_spec_at(i: u8)
        ensures
            Self::spec_at(i).index() == i,
    {
        TableIndex::lemma_value_of_spec_new(i);
    }

    /// The entry at an index of [0; 50].
    pub fn new(index: TableIndex) -> (r: Self)
        requires
            index.value() <= 50,
        ensures
            r.index() == index.value(),
    {
        Self { index }
    }

    /// The value of the entry.
    pub fn to_u32(self) -> (r: u32)
        ensures
            r == attack_table(self.index() as int),
            self.index() <= 50,
    {
        proof {
            use_type_invariant(&self);
        }
        attack_value(self.index.as_u8())
    }

    /// The entry holding a value, refused when no entry holds it.
    pub fn try_from(value: u32) -> (r: Result<Self, SerializationError>)
        ensures
            match r {
                Ok(s) => s.index() <= 50 && attack_table(s.index() as int) == value
                    && forall|j: int| 0 <= j < s.index() ==> attack_table(j) != value,
                Err(e) => e@ == ErrorView::ValueNotFoundInTable(value)
                    && forall|j: int| 0 <= j <= 50 ==> attack_table(j) != value,
            },
    {
        let mut i: u8 = 0;
        while i <= 50
            invariant
                i <= 51,
                forall|j: int| 0 <= j < i ==> attack_table(j) != value,
            decreases 51 - i,
        {
            if attack_value(i) == value {
                return Ok(Self { index: TableIndex::new(i) });
            }
            i = i + 1;
        }
        Err(SerializationError::ValueNotFoundInTable(value))
    }
}

/// What reading a `AttackSidechain` gives: a `u32`, then the entry that holds it.
pub open spec fn spec_read_attack(text: Seq<char>) -> Result<u8, ErrorView> {
    match spec_parse_unsigned(text, 10, 0xFFFF_FFFF) {
        Err(k) => Err(ErrorView::ParseIntError(k)),
        Ok(v) => if exists|j: int| 0 <= j <= 50 && attack_table(j) == v {
            Ok((choose|j: int| 0 <= j <= 50 && attack_table(j) == v && forall|k: int| 0 <= k < j ==> attack_table(k) != v) as u8)
        } else {
            Err(ErrorView::ValueNotFoundInTable(v as u32))
        },
    }
}

impl XmlValue for AttackSidechain {
    closed spec fn spec_from_text(text: Seq<char>) -> Result<AttackSidechain, ErrorView> {
        match spec_read_attack(text) {
            Ok(i) => Ok(Self::spec_at(i)),
            Err(e) => Err(e),
        }
    }

    open spec fn spec_to_text(self) -> Seq<char> {
        dec_text(attack_table(self.index() as int) as nat)
    }

    open spec fn spec_well_formed(self) -> bool {
        self.index() <= 50
    }

    proof fn lemma_round_trip(self) {
        lemma_attack_sidechain_round_trip(self);
    }

    proof fn lemma_read_well_formed(text: Seq<char>) {
        match spec_read_attack(text) {
            Ok(i) => Self::lemma_index_of_spec_at(i),
            Err(_) => {},
        }
    }

    fn from_text(text: &str) -> (r: Result<AttackSidechain, SerializationError>) {
        match parse_unsigned(text, 10, 0xFFFF_FFFF) {
            Err(k) => Err(SerializationError::ParseIntError(k)),
            Ok(v) => {
                let r = Self::try_from(v as u32);
                proof {
                    match r {
                        Ok(s) => {
                            let j = s.index() as int;
                            assert(0 <= j <= 50 && attack_table(j) == v && forall|k: int| 0 <= k < j ==> attack_table(k) != v);
                            let c = choose|j: int| 0 <= j <= 50 && attack_table(j) == v && forall|k: int| 0 <= k < j ==> attack_table(k) != v;
                            if c < j {
                                assert(attack_table(c) != v);
                            }
                            if j < c {
                                assert(attack_table(j) != v);
                            }
                            assert(c == j);
                            TableIndex::lemma_spec_new_of_value(s.index);
                            assert(s == Self::spec_at(s.index()));
                        },
                        Err(_) => {},
                    }
                }
                r
            },
        }
    }

    fn to_text(&self) -> (r: String) {
        u64_text(self.to_u32() as u64)
    }
}

/// The release of a sidechain, an entry of `release_table`.
#[derive(Clone, Copy, PartialEq, Eq, Debug)]
pub struct ReleaseSidechain {
    index: TableIndex,
}

impl ReleaseSidechain {
    /// Every index designates an entry of the table.
    #[verifier::type_invariant]
    spec fn in_table(self) -> bool {
        self.index.value() <= 50
    }

    /// The index in the table.
    pub closed spec fn index(self) -> u8 {
        self.index.value()
    }

    /// The entry at an index, seen as a value of this type.
    pub closed spec fn spec_at(i: u8) -> Self {
        ReleaseSidechain { index: TableIndex::spec_new(i) }
    }

    /// An entry is the one `spec_at` builds from its index.
    pub proof fn lemma_spec_at_index(a: Self)
        ensures
            Self::spec_at(a.index()) == a,
    {
        TableIndex::lemma_spec_new_of_value(a.index);
    }

    /// `spec_at` keeps its index.
    pub proof fn lemma_index_of_spec_at(i: u8)
        ensures
            Self::spec_at(i).index() == i,
    {
        TableIndex::lemma_value_of_spec_new(i);
    }

    /// The entry at an index of [0; 50].
    pub fn new(index: TableIndex) -> (r: Self)
        requires
            index.value() <= 50,
        ensures
            r.index() == index.value(),
    {
        Self { index }
    }

    /// The value of the entry.
    pub fn to_u32(self) -> (r: u32)
        ensures
            r == release_table(self.index() as int),
            self.index() <= 50,
    {
        proof {
            use_type_invariant(&self);
        }
        release_value(self.index.as_u8())
    }

    /// The entry holding a value, refused when no entry holds it.
    pub fn try_from(value: u32) -> (r: Result<Self, SerializationError>)
        ensures
            match r {
                Ok(s) => s.index() <= 50 && release_table(s.index() as int) == value
                    && forall|j: int| 0 <= j < s.index() ==> release_table(j) != value,
                Err(e) => e@ == ErrorView::ValueNotFoundInTable(value)
                    && forall|j: int| 0 <= j <= 50 ==> release_table(j) != value,
            },
    {
        let mut i: u8 = 0;
        while i <= 50
            invariant
                i <= 51,
                forall|j: int| 0 <= j < i ==> release_table(j) != value,
            decreases 51 - i,
        {
            if release_value(i) == value {
                return Ok(Self { index: TableIndex::new(i) });
            }
            i = i + 1;
        }
        Err(SerializationError::ValueNotFoundInTable(value))
    }
}

/// What reading a `ReleaseSidechain` gives: a `u32`, then the entry that holds it.
pub open spec fn spec_read_release(text: Seq<char>) -> Result<u8, ErrorView> {
    match spec_parse_unsigned(text, 10, 0xFFFF_FFFF) {
        Err(k) => Err(ErrorView::ParseIntError(k)),
        Ok(v) => if exists|j: int| 0 <= j <= 50 && release_table(j) == v {
            Ok((choose|j: int| 0 <= j <= 50 && release_table(j) == v && forall|k: int| 0 <= k < j ==> release_table(k) != v) as u8)
        } else {
            Err(ErrorView::ValueNotFoundInTable(v as u32))
        },
    }
}

impl XmlValue for ReleaseSidechain {
    closed spec fn spec_from_text(text: Seq<char>) -> Result<ReleaseSidechain, ErrorView> {
        match spec_read_release(text) {
            Ok(i) => Ok(Self::spec_at(i)),
            Err(e) => Err(e),
        }
    }

    open spec fn spec_to_text(self) -> Seq<char> {
        dec_text(release_table(self.index() as int) as nat)
    }

    open spec fn spec_well_formed(self) -> bool {
        self.index() <= 50
    }

    proof fn lemma_round_trip(self) {
        lemma_release_sidechain_round_trip(self);
    }

    proof fn lemma_read_well_formed(text: Seq<char>) {
        match spec_read_release(text) {
            Ok(i) => Self::lemma_index_of_spec_at(i),
            Err(_) => {},
        }
    }

    fn from_text(text: &str) -> (r: Result<ReleaseSidechain, SerializationError>) {
        match parse_unsigned(text, 10, 0xFFFF_FFFF) {
            Err(k) => Err(SerializationError::ParseIntError(k)),
            Ok(v) => {
                let r = Self::try_from(v as u32);
                proof {
                    match r {
                        Ok(s) => {
                            let j = s.index() as int;
                            assert(0 <= j <= 50 && release_table(j) == v && forall|k: int| 0 <= k < j ==> release_table(k) != v);
                            let c = choose|j: int| 0 <= j <= 50 && release_table(j) == v && forall|k: int| 0 <= k < j ==> release_table(k) != v;
                            if c < j {
                                assert(release_table(c) != v);
                            }
                            if j < c {
                                assert(release_table(j) != v);
                            }
                            assert(c == j);
                            TableIndex::lemma_spec_new_of_value(s.index);
                            assert(s == Self::spec_at(s.index()));
                        },
                        Err(_) => {},
                    }
                }
                r
            },
        }
    }

    fn to_text(&self) -> (r: String) {
        u64_text(self.to_u32() as u64)
    }
}

proof fn lemma_attack_table_step(i: int)
    requires
        0 <= i < 50,
    ensures
        attack_table(i) > attack_table(i + 1),
{
}

/// The attack times strictly decrease along the table, so no two indices share one.
pub proof fn lemma_attack_table_decreasing(i: int, j: int)
    requires
        0 <= i < j <= 50,
    ensures
        attack_table(i) > attack_table(j),
    decreases j - i,
{
    lemma_attack_table_step(j - 1);
    if i < j - 1 {
        lemma_attack_table_decreasing(i, j - 1);
    }
}

/// A `AttackSidechain` written then read back is unchanged.
pub proof fn lemma_attack_sidechain_round_trip(value: AttackSidechain)
    requires
        value.index() <= 50,
    ensures
        AttackSidechain::spec_from_text(value.spec_to_text()) == Ok::<AttackSidechain, ErrorView>(value),
{
    let k = value.index() as int;
    let v = attack_table(k);
    crate::text::lemma_parse_unsigned_dec_text(v as nat, 0xFFFF_FFFF);
    assert forall|j: int| 0 <= j < k implies attack_table(j) != v by {
        lemma_attack_table_decreasing(j, k);
    }
    assert(0 <= k <= 50 && attack_table(k) == v);
    let c = choose|j: int| 0 <= j <= 50 && attack_table(j) == v && forall|m: int| 0 <= m < j ==> attack_table(m) != v;
    if c < k {
        lemma_attack_table_decreasing(c, k);
    }
    if k < c {
        assert(attack_table(k) != v);
    }
    TableIndex::lemma_spec_new_of_value(value.index);
}

proof fn lemma_release_table_step(i: int)
    requires
        0 <= i < 50,
    ensures
        release_table(i) > release_table(i + 1),
{
}

/// The release times strictly decrease along the table, so no two indices share one.
pub proof fn lemma_release_table_decreasing(i: int, j: int)
    requires
        0 <= i < j <= 50,
    ensures
        release_table(i) > release_table(j),
    decreases j - i,
{
    lemma_release_table_step(j - 1);
    if i < j - 1 {
        lemma_release_table_decreasing(i, j - 1);
    }
}

/// A `ReleaseSidechain` written then read back is unchanged.
pub proof fn lemma_release_sidechain_round_trip(value: ReleaseSidechain)
    requires
        value.index() <= 50,
    ensures
        ReleaseSidechain::spec_from_text(value.spec_to_text()) == Ok::<ReleaseSidechain, ErrorView>(value),
{
    let k = value.index() as int;
    let v = release_table(k);
    crate::text::lemma_parse_unsigned_dec_text(v as nat, 0xFFFF_FFFF);
    assert forall|j: int| 0 <= j < k implies release_table(j) != v by {
        lemma_release_table_decreasing(j, k);
    }
    assert(0 <= k <= 50 && release_table(k) == v);
    let c = choose|j: int| 0 <= j <= 50 && release_table(j) == v && forall|m: int| 0 <= m < j ==> release_table(m) != v;
    if c < k {
        lemma_release_table_decreasing(c, k);
    }
    if k < c {
        assert(release_table(k) != v);
    }
    TableIndex::lemma_spec_new_of_value(value.index);
}

} // verus!
