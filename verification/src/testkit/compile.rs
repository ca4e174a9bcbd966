//! Names of the files around a compilation.

use vstd::prelude::*;

use crate::runtime::text::{decimal, decimal_text, digit, join, slice, str_eq};

verus! {

/// Name of the directory for compiling class `name`.
pub open spec fn directory_name(name: Seq<char>, seq: u64, pid: u32) -> Seq<char> {
    "rustj-test-"@ + name + "-"@ + decimal(seq as nat) + "-"@ + decimal(pid as nat)
}

/// Name of the directory for compiling class `name`.
pub fn unique_dir(name: &str, seq: u64, pid: u32) -> (r: String)
    ensures
        r@ == directory_name(name@, seq, pid),
{
    let head: String = join("rustj-test-", name);
    let numbered: String = join(join(head.as_str(), "-").as_str(), decimal_text(seq).as_str());
    join(join(numbered.as_str(), "-").as_str(), decimal_text(pid as u64).as_str())
}

/// Name of the source file of class `name`.
pub fn source_file(name: &str) -> (r: String)
    ensures
        r@ == name@ + ".java"@,
{
    join(name, ".java")
}

/// Name of the class file of class `name`.
pub fn class_file(name: &str) -> (r: String)
    ensures
        r@ == name@ + ".class"@,
{
    join(name, ".class")
}

/// Whether a file name is that of a class file: something, then `.class`.
pub open spec fn names_class_file(file: Seq<char>) -> bool {
    file.len() > 6 && file.skip(file.len() - 6) == ".class"@
}

/// Whether a file name is that of a class file.
pub fn is_class_file(file: &str) -> (r: bool)
    ensures
        r == names_class_file(file@),
{
    let n: usize = file.unicode_len();
    if n <= 6 {
        return false;
    }
    assert(file@.subrange(n - 6, n as int) =~= file@.skip(n - 6));
    str_eq(slice(file, n - 6, n).as_str(), ".class")
}

/// Compilations of different numbers or processes have different directories.
pub proof fn law_directories_are_distinct(a: Seq<char>, b: Seq<char>, i: u64, j: u64, p: u32, q: u32)
    requires
        directory_name(a, i, p) == directory_name(b, j, q),
    ensures
        i == j,
        p == q,
{
    reveal_strlit("-");
    assert("-"@ =~= seq!['-']);
    let x = "rustj-test-"@ + a;
    let y = "rustj-test-"@ + b;
    let di = decimal(i as nat);
    let dj = decimal(j as nat);
    assert(directory_name(a, i, p) =~= (x + seq!['-'] + di) + seq!['-'] + decimal(p as nat));
    assert(directory_name(b, j, q) =~= (y + seq!['-'] + dj) + seq!['-'] + decimal(q as nat));
    digits_only(i as nat);
    digits_only(j as nat);
    digits_only(p as nat);
    digits_only(q as nat);
    last_part(x + seq!['-'] + di, decimal(p as nat), y + seq!['-'] + dj, decimal(q as nat));
    last_part(x, di, y, dj);
    decimal_injective(i as nat, j as nat);
    decimal_injective(p as nat, q as nat);
}

/// A text splits in one way at its last dash.
proof fn last_part(x: Seq<char>, d: Seq<char>, y: Seq<char>, e: Seq<char>)
    requires
        x + seq!['-'] + d == y + seq!['-'] + e,
        !d.contains('-'),
        !e.contains('-'),
    ensures
        x == y,
        d == e,
{
    let t = x + seq!['-'] + d;
    let u = y + seq!['-'] + e;
    assert(t.len() == x.len() + 1 + d.len() && u.len() == y.len() + 1 + e.len());
    assert(t[x.len() as int] == '-');
    assert(u[y.len() as int] == '-');
    if x.len() < y.len() {
        assert(t[y.len() as int] == d[y.len() - (x.len() + 1)]);
        assert(d.contains('-'));
    } else if y.len() < x.len() {
        assert(u[x.len() as int] == e[x.len() - (y.len() + 1)]);
        assert(e.contains('-'));
    }
    assert(x =~= t.take(x.len() as int));
    assert(y =~= u.take(x.len() as int));
    assert(d =~= t.skip(x.len() as int + 1));
    assert(e =~= u.skip(x.len() as int + 1));
}

proof fn digits_only(n: nat)
    ensures
        !decimal(n).contains('-'),
    decreases n,
{
    if n >= 10 {
        digits_only(n / 10);
        let d = decimal(n);
        assert forall|k: int| 0 <= k < d.len() implies d[k] != '-' by {
            if k < d.len() - 1 {
                assert(d[k] == decimal(n / 10)[k]);
            }
        }
    }
}

proof fn decimal_injective(a: nat, b: nat)
    requires
        decimal(a) == decimal(b),
    ensures
        a == b,
    decreases a,
{
    let x = decimal(a);
    let y = decimal(b);
    assert(x.last() == digit((a % 10) as int));
    assert(y.last() == digit((b % 10) as int));
    digit_injective((a % 10) as int, (b % 10) as int);
    decimal_length(a);
    decimal_length(b);
    if a >= 10 && b >= 10 {
        assert(decimal(a / 10) =~= x.drop_last());
        assert(decimal(b / 10) =~= y.drop_last());
        decimal_injective(a / 10, b / 10);
    } else if a >= 10 {
        decimal_length(a / 10);
    } else if b >= 10 {
        decimal_length(b / 10);
    }
}

proof fn digit_injective(a: int, b: int)
    requires
        0 <= a < 10,
        0 <= b < 10,
        digit(a) == digit(b),
    ensures
        a == b,
{
}

proof fn decimal_length(n: nat)
    ensures
        decimal(n).len() > 0,
    decreases n,
{
    if n >= 10 {
        decimal_length(n / 10);
    }
}

/// The class file of a class with a name is one.
pub proof fn law_class_files_are_class_files(name: Seq<char>)
    requires
        name.len() > 0,
    ensures
        names_class_file(name + ".class"@),
{
    reveal_strlit(".class");
    assert((name + ".class"@).skip(name.len() as int) =~= ".class"@);
}

/// A file name is that of a class file exactly if it is a name, which is not empty, and `.class`; the directory of a
/// compilation names the class, its number and the process.
pub proof fn law_names_around_a_compilation(file: Seq<char>, name: Seq<char>, number: u64, pid: u32)
    ensures
        names_class_file(file) == exists|stem: Seq<char>| stem.len() > 0 && file == #[trigger] (stem + ".class"@),
        directory_name(name, number, pid) == "rustj-test-"@ + name + "-"@ + decimal(number as nat) + "-"@ + decimal(
            pid as nat,
        ),
{
    reveal_strlit(".class");
    if names_class_file(file) {
        let stem = file.take(file.len() - 6);
        assert(file =~= stem + ".class"@);
    }
    if exists|stem: Seq<char>| stem.len() > 0 && file == #[trigger] (stem + ".class"@) {
        let stem = choose|stem: Seq<char>| stem.len() > 0 && file == #[trigger] (stem + ".class"@);
        law_class_files_are_class_files(stem);
    }
}

} // verus!
