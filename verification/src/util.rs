use vstd::prelude::*;
use crate::geometry::{Shape3, lemma_flat_index_bound, lemma_flat_index_lex};

verus! {

/// A nested three-dimensional vector has exactly the given shape: `w` planes
/// of `h` rows of `d` entries.
pub open spec fn shaped3<T>(v: Seq<Vec<Vec<T>>>, s: Shape3) -> bool {
    &&& v.len() == s.w
    &&& forall|x: int| 0 <= x < s.w ==> (#[trigger] v[x])@.len() == s.h
    &&& forall|x: int, y: int|
        0 <= x < s.w && 0 <= y < s.h ==> (#[trigger] v[x]@[y])@.len() == s.d
}

/// The entry of a nested three-dimensional vector at cell `(x, y, z)`.
pub open spec fn at3<T>(v: Seq<Vec<Vec<T>>>, x: int, y: int, z: int) -> T {
    v[x]@[y]@[z]
}

/// Flattens a volumetric tensor into the flat vector a dense layer consumes,
/// in row-major order: cell `(x, y, z)` lands at `s.flat_index(x, y, z)`.
pub fn flatten<T: Copy>(v: &Vec<Vec<Vec<T>>>, s: Shape3) -> (r: Vec<T>)
    requires
        shaped3(v@, s),
        s.volume() <= usize::MAX,
    ensures
        r@.len() == s.volume(),
        forall|x: int, y: int, z: int|
            s.contains(x, y, z) ==> r@[s.flat_index(x, y, z)] == at3(v@, x, y, z),
{
    let ghost dv = v@;
    let mut r: Vec<T> = Vec::new();
    let mut x: usize = 0;
    proof {
        assert(x * s.h * s.d == 0) by (nonlinear_arith)
            requires
                x == 0;
    }
    while x < s.w
        invariant
            shaped3(dv, s),
            dv == v@,
            s.volume() <= usize::MAX,
            x <= s.w,
            r@.len() == x * s.h * s.d,
            forall|a: int, b: int, c: int|
                s.contains(a, b, c) && a < x ==> r@[s.flat_index(a, b, c)] == at3(dv, a, b, c),
        decreases s.w - x,
    {
        let plane = &v[x];
        let mut y: usize = 0;
        proof {
            assert((x * s.h + y) * s.d == x * s.h * s.d) by (nonlinear_arith)
                requires
                    y == 0;
        }
        while y < s.h
            invariant
                shaped3(dv, s),
                dv == v@,
                s.volume() <= usize::MAX,
                x < s.w,
                y <= s.h,
                plane@ == dv[x as int]@,
                r@.len() == (x * s.h + y) * s.d,
                forall|a: int, b: int, c: int|
                    s.contains(a, b, c) && (a < x || (a == x && b < y))
                        ==> r@[s.flat_index(a, b, c)] == at3(dv, a, b, c),
            decreases s.h - y,
        {
            let row = &plane[y];
            let mut z: usize = 0;
            while z < s.d
                invariant
                    shaped3(dv, s),
                    dv == v@,
                    s.volume() <= usize::MAX,
                    x < s.w,
                    y < s.h,
                    z <= s.d,
                    row@ == dv[x as int]@[y as int]@,
                    r@.len() == (x * s.h + y) * s.d + z,
                    forall|a: int, b: int, c: int|
                        s.contains(a, b, c) && (a < x || (a == x && b < y) || (a == x && b == y
                            && c < z)) ==> r@[s.flat_index(a, b, c)] == at3(dv, a, b, c),
                decreases s.d - z,
            {
                proof {
                    lemma_flat_index_bound(s, x as int, y as int, z as int);
                }
                r.push(row[z]);
                z = z + 1;
                proof {
                    assert forall|a: int, b: int, c: int|
                        s.contains(a, b, c) && (a < x || (a == x && b < y) || (a == x && b == y
                            && c < z)) implies r@[s.flat_index(a, b, c)] == at3(dv, a, b, c) by {
                        lemma_flat_index_bound(s, a, b, c);
                        if a == x && b == y && c == z - 1 {
                        } else {
                            lemma_flat_index_lex(s, a, b, c, x as int, y as int, z - 1);
                            assert(s.flat_index(a, b, c) < r@.len() - 1);
                        }
                    }
                }
            }
            y = y + 1;
            proof {
                assert(((x * s.h + y - 1) * s.d + s.d) == (x * s.h + y) * s.d) by (nonlinear_arith);
            }
        }
        x = x + 1;
        proof {
            assert(((x - 1) * s.h + s.h) * s.d == x * s.h * s.d) by (nonlinear_arith);
        }
    }
    proof {
        assert(s.w * s.h * s.d == s.volume()) by (nonlinear_arith);
    }
    r
}

/// Rebuilds the volumetric tensor a flat vector stands for: the inverse of
/// `flatten`, used when an error vector crosses back over a dense layer's
/// transition shape.
pub fn unflatten<T: Copy>(flat: &Vec<T>, s: Shape3) -> (r: Vec<Vec<Vec<T>>>)
    requires
        flat@.len() == s.volume(),
    ensures
        shaped3(r@, s),
        forall|x: int, y: int, z: int|
            s.contains(x, y, z) ==> at3(r@, x, y, z) == flat@[s.flat_index(x, y, z)],
{
    let mut r: Vec<Vec<Vec<T>>> = Vec::new();
    proof {
        vstd::std_specs::vec::axiom_spec_len(flat);
    }
    let mut x: usize = 0;
    while x < s.w
        invariant
            flat@.len() == s.volume(),
            s.volume() <= usize::MAX,
            x <= s.w,
            r@.len() == x,
            forall|a: int| 0 <= a < x ==> (#[trigger] r@[a])@.len() == s.h,
            forall|a: int, b: int|
                0 <= a < x && 0 <= b < s.h ==> (#[trigger] r@[a]@[b])@.len() == s.d,
            forall|a: int, b: int, c: int|
                s.contains(a, b, c) && a < x
                    ==> at3(r@, a, b, c) == flat@[s.flat_index(a, b, c)],
        decreases s.w - x,
    {
        let mut plane: Vec<Vec<T>> = Vec::new();
        let mut y: usize = 0;
        while y < s.h
            invariant
                flat@.len() == s.volume(),
                s.volume() <= usize::MAX,
                x < s.w,
                y <= s.h,
                plane@.len() == y,
                forall|b: int| 0 <= b < y ==> (#[trigger] plane@[b])@.len() == s.d,
                forall|b: int, c: int|
                    0 <= b < y && 0 <= c < s.d
                        ==> plane@[b]@[c] == flat@[s.flat_index(x as int, b, c)],
            decreases s.h - y,
        {
            let mut row: Vec<T> = Vec::new();
            let mut z: usize = 0;
            while z < s.d
                invariant
                    flat@.len() == s.volume(),
                    s.volume() <= usize::MAX,
                    x < s.w,
                    y < s.h,
                    z <= s.d,
                    row@.len() == z,
                    forall|c: int|
                        0 <= c < z ==> row@[c] == flat@[s.flat_index(x as int, y as int, c)],
                decreases s.d - z,
            {
                proof {
                    lemma_flat_index_bound(s, x as int, y as int, z as int);
                }
                let idx = s.index_of(x, y, z);
                row.push(flat[idx]);
                z = z + 1;
            }
            plane.push(row);
            y = y + 1;
        }
        r.push(plane);
        x = x + 1;
    }
    r
}

/// The one-hot target vector for a class label: `one` at the label's
/// position, `zero` everywhere else.
pub fn one_hot<T: Copy>(label: usize, n: usize, zero: T, one: T) -> (r: Vec<T>)
    ensures
        r@.len() == n,
        forall|i: int| 0 <= i < n ==> r@[i] == (if i == label { one } else { zero }),
{
    let mut r: Vec<T> = Vec::new();
    let mut i: usize = 0;
    while i < n
        invariant
            i <= n,
            r@.len() == i,
            forall|j: int| 0 <= j < i ==> r@[j] == (if j == label { one } else { zero }),
        decreases n - i,
    {
        if i == label {
            r.push(one);
        } else {
            r.push(zero);
        }
        i = i + 1;
    }
    r
}

/// The fifty region names that the image labels of the geolocation dataset
/// stand for, listed alphabetically: the name at each label index.
pub open spec fn state_name(i: int) -> Seq<char> {
    if i == 0 {
        "Alabama"@
    }
    else if i == 1 {
        "Alaska"@
    }
    else if i == 2 {
        "Arizona"@
    }
    else if i == 3 {
        "Arkansas"@
    }
    else if i == 4 {
        "California"@
    }
    else if i == 5 {
        "Colorado"@
    }
    else if i == 6 {
        "Connecticut"@
    }
    else if i == 7 {
        "Delaware"@
    }
    else if i == 8 {
        "Florida"@
    }
    else if i == 9 {
        "Georgia"@
    }
    else if i == 10 {
        "Hawaii"@
    }
    else if i == 11 {
        "Idaho"@
    }
    else if i == 12 {
        "Illinois"@
    }
    else if i == 13 {
        "Indiana"@
    }
    else if i == 14 {
        "Iowa"@
    }
    else if i == 15 {
        "Kansas"@
    }
    else if i == 16 {
        "Kentucky"@
    }
    else if i == 17 {
        "Louisiana"@
    }
    else if i == 18 {
        "Maine"@
    }
    else if i == 19 {
        "Maryland"@
    }
    else if i == 20 {
        "Massachusetts"@
    }
    else if i == 21 {
        "Michigan"@
    }
    else if i == 22 {
        "Minnesota"@
    }
    else if i == 23 {
        "Mississippi"@
    }
    else if i == 24 {
        "Missouri"@
    }
    else if i == 25 {
        "Montana"@
    }
    else if i == 26 {
        "Nebraska"@
    }
    else if i == 27 {
        "Nevada"@
    }
    else if i == 28 {
        "New Hampshire"@
    }
    else if i == 29 {
        "New Jersey"@
    }
    else if i == 30 {
        "New Mexico"@
    }
    else if i == 31 {
        "New York"@
    }
    else if i == 32 {
        "North Carolina"@
    }
    else if i == 33 {
        "North Dakota"@
    }
    else if i == 34 {
        "Ohio"@
    }
    else if i == 35 {
        "Oklahoma"@
    }
    else if i == 36 {
        "Oregon"@
    }
    else if i == 37 {
        "Pennsylvania"@
    }
    else if i == 38 {
        "Rhode Island"@
    }
    else if i == 39 {
        "South Carolina"@
    }
    else if i == 40 {
        "South Dakota"@
    }
    else if i == 41 {
        "Tennessee"@
    }
    else if i == 42 {
        "Texas"@
    }
    else if i == 43 {
        "Utah"@
    }
    else if i == 44 {
        "Vermont"@
    }
    else if i == 45 {
        "Virginia"@
    }
    else if i == 46 {
        "Washington"@
    }
    else if i == 47 {
        "West Virginia"@
    }
    else if i == 48 {
        "Wisconsin"@
    }
    else {
        "Wyoming"@
    }
}

/// True exactly when two string slices hold the same characters.
fn str_eq(a: &str, b: &str) -> (r: bool)
    ensures
        r == (a@ == b@),
{
    let sa = a.to_owned();
    let sb = b.to_owned();
    sa.eq(&sb)
}

/// Converts a state name to an index, based on alphabetical order of the
/// states.
pub fn state_to_idx(state: &str) -> (r: usize)
    requires
        exists|i: int| 0 <= i < 50 && state@ == state_name(i),
    ensures
        r < 50,
        state_name(r as int) == state@,
{
    if str_eq(state, "Alabama") {
        0
    } else if str_eq(state, "Alaska") {
        1
    } else if str_eq(state, "Arizona") {
        2
    } else if str_eq(state, "Arkansas") {
        3
    } else if str_eq(state, "California") {
        4
    } else if str_eq(state, "Colorado") {
        5
    } else if str_eq(state, "Connecticut") {
        6
    } else if str_eq(state, "Delaware") {
        7
    } else if str_eq(state, "Florida") {
        8
    } else if str_eq(state, "Georgia") {
        9
    } else if str_eq(state, "Hawaii") {
        10
    } else if str_eq(state, "Idaho") {
        11
    } else if str_eq(state, "Illinois") {
        12
    } else if str_eq(state, "Indiana") {
        13
    } else if str_eq(state, "Iowa") {
        14
    } else if str_eq(state, "Kansas") {
        15
    } else if str_eq(state, "Kentucky") {
        16
    } else if str_eq(state, "Louisiana") {
        17
    } else if str_eq(state, "Maine") {
        18
    } else if str_eq(state, "Maryland") {
        19
    } else if str_eq(state, "Massachusetts") {
        20
    } else if str_eq(state, "Michigan") {
        21
    } else if str_eq(state, "Minnesota") {
        22
    } else if str_eq(state, "Mississippi") {
        23
    } else if str_eq(state, "Missouri") {
        24
    } else if str_eq(state, "Montana") {
        25
    } else if str_eq(state, "Nebraska") {
        26
    } else if str_eq(state, "Nevada") {
        27
    } else if str_eq(state, "New Hampshire") {
        28
    } else if str_eq(state, "New Jersey") {
        29
    } else if str_eq(state, "New Mexico") {
        30
    } else if str_eq(state, "New York") {
        31
    } else if str_eq(state, "North Carolina") {
        32
    } else if str_eq(state, "North Dakota") {
        33
    } else if str_eq(state, "Ohio") {
        34
    } else if str_eq(state, "Oklahoma") {
        35
    } else if str_eq(state, "Oregon") {
        36
    } else if str_eq(state, "Pennsylvania") {
        37
    } else if str_eq(state, "Rhode Island") {
        38
    } else if str_eq(state, "South Carolina") {
        39
    } else if str_eq(state, "South Dakota") {
        40
    } else if str_eq(state, "Tennessee") {
        41
    } else if str_eq(state, "Texas") {
        42
    } else if str_eq(state, "Utah") {
        43
    } else if str_eq(state, "Vermont") {
        44
    } else if str_eq(state, "Virginia") {
        45
    } else if str_eq(state, "Washington") {
        46
    } else if str_eq(state, "West Virginia") {
        47
    } else if str_eq(state, "Wisconsin") {
        48
    } else {
        49
    }
}

/// Converts a state index to a name, based on alphabetical order of the
/// states.
pub fn idx_to_state(idx: usize) -> (r: &'static str)
    requires
        idx < 50,
    ensures
        r@ == state_name(idx as int),
{
    match idx {
        0 => "Alabama",
        1 => "Alaska",
        2 => "Arizona",
        3 => "Arkansas",
        4 => "California",
        5 => "Colorado",
        6 => "Connecticut",
        7 => "Delaware",
        8 => "Florida",
        9 => "Georgia",
        10 => "Hawaii",
        11 => "Idaho",
        12 => "Illinois",
        13 => "Indiana",
        14 => "Iowa",
        15 => "Kansas",
        16 => "Kentucky",
        17 => "Louisiana",
        18 => "Maine",
        19 => "Maryland",
        20 => "Massachusetts",
        21 => "Michigan",
        22 => "Minnesota",
        23 => "Mississippi",
        24 => "Missouri",
        25 => "Montana",
        26 => "Nebraska",
        27 => "Nevada",
        28 => "New Hampshire",
        29 => "New Jersey",
        30 => "New Mexico",
        31 => "New York",
        32 => "North Carolina",
        33 => "North Dakota",
        34 => "Ohio",
        35 => "Oklahoma",
        36 => "Oregon",
        37 => "Pennsylvania",
        38 => "Rhode Island",
        39 => "South Carolina",
        40 => "South Dakota",
        41 => "Tennessee",
        42 => "Texas",
        43 => "Utah",
        44 => "Vermont",
        45 => "Virginia",
        46 => "Washington",
        47 => "West Virginia",
        48 => "Wisconsin",
        _ => "Wyoming",
    }
}

} // verus!
