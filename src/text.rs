use vstd::prelude::*;
use vstd::string::*;
use crate::assembly::CubeSpec;

verus! {

pub open spec fn digit_char(d: int) -> char {
    if d == 0 {
        '0'
    } else if d == 1 {
        '1'
    } else if d == 2 {
        '2'
    } else if d == 3 {
        '3'
    } else if d == 4 {
        '4'
    } else if d == 5 {
        '5'
    } else if d == 6 {
        '6'
    } else if d == 7 {
        '7'
    } else if d == 8 {
        '8'
    } else {
        '9'
    }
}

/// The decimal digits of `n`, without leading zeros.
pub open spec fn decimal(n: nat) -> Seq<char>
    decreases n,
{
    if n < 10 {
        seq![digit_char(n as int)]
    } else {
        decimal(n / 10).push(digit_char((n % 10) as int))
    }
}

/// `s` right-aligned in a field of three characters, padded with spaces.
pub open spec fn pad3(s: Seq<char>) -> Seq<char> {
    if s.len() >= 3 {
        s
    } else {
        Seq::new((3 - s.len()) as nat, |i: int| ' ') + s
    }
}

/// A count of thousandths written as a number with three decimals.
pub open spec fn thousandths(n: nat) -> Seq<char> {
    decimal(n / 1000) + seq![
        '.',
        digit_char(((n % 1000) / 100) as int),
        digit_char(((n % 100) / 10) as int),
        digit_char((n % 10) as int),
    ]
}

fn digit_str(d: u64) -> (r: &'static str)
    requires
        d < 10,
    ensures
        r@ == seq![digit_char(d as int)],
{
    if d == 0 {
        proof { reveal_strlit("0"); }
        "0"
    } else if d == 1 {
        proof { reveal_strlit("1"); }
        "1"
    } else if d == 2 {
        proof { reveal_strlit("2"); }
        "2"
    } else if d == 3 {
        proof { reveal_strlit("3"); }
        "3"
    } else if d == 4 {
        proof { reveal_strlit("4"); }
        "4"
    } else if d == 5 {
        proof { reveal_strlit("5"); }
        "5"
    } else if d == 6 {
        proof { reveal_strlit("6"); }
        "6"
    } else if d == 7 {
        proof { reveal_strlit("7"); }
        "7"
    } else if d == 8 {
        proof { reveal_strlit("8"); }
        "8"
    } else {
        proof { reveal_strlit("9"); }
        "9"
    }
}

fn push_decimal(s: &mut String, n: u64)
    ensures
        final(s)@ == old(s)@ + decimal(n as nat),
    decreases n,
{
    if n >= 10 {
        push_decimal(s, n / 10);
    }
    s.append(digit_str(n % 10));
    assert(n >= 10 ==> decimal(n as nat) == decimal((n / 10) as nat).push(digit_char((n % 10) as int)));
}

/// `n` in decimal.
pub fn decimal_text(n: u64) -> (r: String)
    ensures
        r@ == decimal(n as nat),
{
    let mut s = String::new();
    push_decimal(&mut s, n);
    assert(s@ =~= decimal(n as nat));
    s
}

fn push_thousandths(s: &mut String, n: u64)
    ensures
        final(s)@ == old(s)@ + thousandths(n as nat),
{
    push_decimal(s, n / 1000);
    proof { reveal_strlit("."); }
    s.append(".");
    s.append(digit_str((n % 1000) / 100));
    s.append(digit_str((n % 100) / 10));
    s.append(digit_str(n % 10));
    assert(final(s)@ =~= old(s)@ + thousandths(n as nat));
}

/// The label of a block whose tube has diameter `diameter`: the number in
/// decimal, right-aligned in three characters.
pub fn label_text(diameter: u64) -> (r: String)
    ensures
        r@ == pad3(decimal(diameter as nat)),
{
    let mut s = String::new();
    if diameter < 10 {
        proof { reveal_strlit("  "); }
        s.append("  ");
    } else if diameter < 100 {
        proof { reveal_strlit(" "); }
        s.append(" ");
    }
    push_decimal(&mut s, diameter);
    proof {
        reveal_with_fuel(decimal, 3);
        let d = decimal(diameter as nat);
        if diameter >= 100 {
            assert(decimal((diameter / 10) as nat).len() >= 2);
        }
    }
    assert(s@ =~= pad3(decimal(diameter as nat)));
    s
}

/// The place of a block in its run, where the run has more than one.
pub open spec fn place_part(index: nat, count: nat) -> Seq<char> {
    if count > 1 {
        "-"@ + decimal(index)
    } else {
        Seq::<char>::empty()
    }
}

/// The block's side, and its tube when it has one.
pub open spec fn shape_part(spec: CubeSpec) -> Seq<char> {
    let side = ".len_side-"@ + thousandths(spec.side as nat);
    if spec.tube_diameter > 0 {
        side + ("_tube_diameter-"@ + thousandths(spec.tube_diameter as nat)) + ("_segments-"@ + decimal(
            spec.segments as nat,
        ))
    } else {
        side
    }
}

/// The block's infill, when it has one.
pub open spec fn fill_part(spec: CubeSpec) -> Seq<char> {
    if spec.infill.resolution > 0 {
        ("_resolution-"@ + decimal(spec.infill.resolution as nat)) + ("-period-"@ + thousandths(
            spec.infill.period as nat,
        )) + ("-iso_value-"@ + thousandths(spec.infill.iso_value as nat))
    } else {
        Seq::<char>::empty()
    }
}

/// The name under which a block is exported: its place in the run when
/// the run has more than one block, then its side, its tube and its infill,
/// lengths in thousandths written with three decimals.
pub open spec fn instance_name(spec: CubeSpec, index: nat, count: nat) -> Seq<char> {
    "cube"@ + place_part(index, count) + shape_part(spec) + fill_part(spec)
}

fn push_place(s: &mut String, index: u32, count: u32)
    ensures
        final(s)@ == old(s)@ + place_part(index as nat, count as nat),
{
    if count > 1 {
        s.append("-");
        push_decimal(s, index as u64);
    }
    assert(final(s)@ =~= old(s)@ + place_part(index as nat, count as nat));
}

fn push_shape(s: &mut String, spec: &CubeSpec)
    ensures
        final(s)@ == old(s)@ + shape_part(*spec),
{
    s.append(".len_side-");
    push_thousandths(s, spec.side as u64);
    let ghost mid = s@;
    if spec.tube_diameter > 0 {
        s.append("_tube_diameter-");
        push_thousandths(s, spec.tube_diameter);
        let ghost mid2 = s@;
        s.append("_segments-");
        push_decimal(s, spec.segments as u64);
        assert(mid2 =~= mid + ("_tube_diameter-"@ + thousandths(spec.tube_diameter as nat)));
        assert(s@ =~= mid2 + ("_segments-"@ + decimal(spec.segments as nat)));
    }
    assert(final(s)@ =~= old(s)@ + shape_part(*spec));
}

fn push_fill(s: &mut String, spec: &CubeSpec)
    ensures
        final(s)@ == old(s)@ + fill_part(*spec),
{
    if spec.infill.resolution > 0 {
        s.append("_resolution-");
        push_decimal(s, spec.infill.resolution);
        let ghost a = s@;
        s.append("-period-");
        push_thousandths(s, spec.infill.period as u64);
        let ghost b = s@;
        s.append("-iso_value-");
        push_thousandths(s, spec.infill.iso_value as u64);
        assert(a =~= old(s)@ + ("_resolution-"@ + decimal(spec.infill.resolution as nat)));
        assert(b =~= a + ("-period-"@ + thousandths(spec.infill.period as nat)));
        assert(s@ =~= b + ("-iso_value-"@ + thousandths(spec.infill.iso_value as nat)));
    }
    assert(final(s)@ =~= old(s)@ + fill_part(*spec));
}

/// The export name of block `index` of a run of `count` blocks.
pub fn export_name(spec: &CubeSpec, index: u32, count: u32) -> (r: String)
    ensures
        r@ == instance_name(*spec, index as nat, count as nat),
{
    let mut s = String::from_str("cube");
    push_place(&mut s, index, count);
    push_shape(&mut s, spec);
    push_fill(&mut s, spec);
    s
}

} // verus!
