//! Reference data for the example tools: the first three periods of the
//! periodic table, looked up by Chinese name or by atomic number.
use crate::text::{decimal, digit_char, push_decimal, push_digit, str_eq};
use vstd::prelude::*;
use vstd::string::*;

verus! {

/// One chemical element. The atomic weight is kept in thousandths, as it is
/// shown with three decimals.
#[derive(Debug)]
pub struct Element {
    pub atomic_number: u8,
    pub symbol: String,
    pub name: String,
    pub pronunciation: String,
    pub english_name: String,
    pub atomic_weight_milli: u32,
    pub period: u8,
    pub group: String,
}

/// What an element holds, with strings seen as character sequences.
pub struct ElementView {
    pub atomic_number: nat,
    pub symbol: Seq<char>,
    pub name: Seq<char>,
    pub pronunciation: Seq<char>,
    pub english_name: Seq<char>,
    pub atomic_weight_milli: nat,
    pub period: nat,
    pub group: Seq<char>,
}

impl View for Element {
    type V = ElementView;

    open spec fn view(&self) -> ElementView {
        ElementView {
            atomic_number: self.atomic_number as nat,
            symbol: self.symbol@,
            name: self.name@,
            pronunciation: self.pronunciation@,
            english_name: self.english_name@,
            atomic_weight_milli: self.atomic_weight_milli as nat,
            period: self.period as nat,
            group: self.group@,
        }
    }
}

pub open spec fn row(
    atomic_number: nat,
    symbol: Seq<char>,
    name: Seq<char>,
    pronunciation: Seq<char>,
    english_name: Seq<char>,
    atomic_weight_milli: nat,
    period: nat,
    group: Seq<char>,
) -> ElementView {
    ElementView {
        atomic_number,
        symbol,
        name,
        pronunciation,
        english_name,
        atomic_weight_milli,
        period,
        group,
    }
}

/// The table's contents, in order of atomic number.
pub open spec fn table() -> Seq<ElementView> {
    seq![
        row(1, "H"@, "氢"@, "qīng"@, "Hydrogen"@, 1008, 1, "IA"@),
        row(2, "He"@, "氦"@, "hài"@, "Helium"@, 4003, 1, "0族"@),
        row(3, "Li"@, "锂"@, "lǐ"@, "Lithium"@, 6941, 2, "IA"@),
        row(4, "Be"@, "铍"@, "pí"@, "Beryllium"@, 9012, 2, "IIA"@),
        row(5, "B"@, "硼"@, "péng"@, "Boron"@, 10811, 2, "IIIA"@),
        row(6, "C"@, "碳"@, "tàn"@, "Carbon"@, 12011, 2, "IVA"@),
        row(7, "N"@, "氮"@, "dàn"@, "Nitrogen"@, 14007, 2, "VA"@),
        row(8, "O"@, "氧"@, "yǎng"@, "Oxygen"@, 15999, 2, "VIA"@),
        row(9, "F"@, "氟"@, "fú"@, "Fluorine"@, 18998, 2, "VIIA"@),
        row(10, "Ne"@, "氖"@, "nǎi"@, "Neon"@, 20180, 2, "0族"@),
        row(11, "Na"@, "钠"@, "nà"@, "Sodium"@, 22990, 3, "IA"@),
        row(12, "Mg"@, "镁"@, "měi"@, "Magnesium"@, 24305, 3, "IIA"@),
        row(13, "Al"@, "铝"@, "lǚ"@, "Aluminum"@, 26982, 3, "IIIA"@),
        row(14, "Si"@, "硅"@, "guī"@, "Silicon"@, 28085, 3, "IVA"@),
        row(15, "P"@, "磷"@, "lín"@, "Phosphorus"@, 30974, 3, "VA"@),
        row(16, "S"@, "硫"@, "liú"@, "Sulfur"@, 32060, 3, "VIA"@),
        row(17, "Cl"@, "氯"@, "lǜ"@, "Chlorine"@, 35450, 3, "VIIA"@),
        row(18, "Ar"@, "氩"@, "yà"@, "Argon"@, 39948, 3, "0族"@),
    ]
}

/// The highest atomic number that a position may name.
pub const MAX_POSITION: u64 = 118;

impl Element {
    pub fn new(
        atomic_number: u8,
        symbol: &str,
        name: &str,
        pronunciation: &str,
        english_name: &str,
        atomic_weight_milli: u32,
        period: u8,
        group: &str,
    ) -> (e: Element)
        ensures
            e@ == row(
                atomic_number as nat,
                symbol@,
                name@,
                pronunciation@,
                english_name@,
                atomic_weight_milli as nat,
                period as nat,
                group@,
            ),
    {
        Element {
            atomic_number,
            symbol: String::from_str(symbol),
            name: String::from_str(name),
            pronunciation: String::from_str(pronunciation),
            english_name: String::from_str(english_name),
            atomic_weight_milli,
            period,
            group: String::from_str(group),
        }
    }
}

/// Builds the table. Element `i` has atomic number `i + 1`.
pub fn periodic_table() -> (t: Vec<Element>)
    ensures
        t@.len() == table().len(),
        forall|i: int| 0 <= i < t@.len() ==> #[trigger] t@[i]@ == table()[i],
{
    let mut t: Vec<Element> = Vec::new();
    t.push(Element::new(1, "H", "氢", "qīng", "Hydrogen", 1008, 1, "IA"));
    t.push(Element::new(2, "He", "氦", "hài", "Helium", 4003, 1, "0族"));
    t.push(Element::new(3, "Li", "锂", "lǐ", "Lithium", 6941, 2, "IA"));
    t.push(Element::new(4, "Be", "铍", "pí", "Beryllium", 9012, 2, "IIA"));
    t.push(Element::new(5, "B", "硼", "péng", "Boron", 10811, 2, "IIIA"));
    t.push(Element::new(6, "C", "碳", "tàn", "Carbon", 12011, 2, "IVA"));
    t.push(Element::new(7, "N", "氮", "dàn", "Nitrogen", 14007, 2, "VA"));
    t.push(Element::new(8, "O", "氧", "yǎng", "Oxygen", 15999, 2, "VIA"));
    t.push(Element::new(9, "F", "氟", "fú", "Fluorine", 18998, 2, "VIIA"));
    t.push(Element::new(10, "Ne", "氖", "nǎi", "Neon", 20180, 2, "0族"));
    t.push(Element::new(11, "Na", "钠", "nà", "Sodium", 22990, 3, "IA"));
    t.push(Element::new(12, "Mg", "镁", "měi", "Magnesium", 24305, 3, "IIA"));
    t.push(Element::new(13, "Al", "铝", "lǚ", "Aluminum", 26982, 3, "IIIA"));
    t.push(Element::new(14, "Si", "硅", "guī", "Silicon", 28085, 3, "IVA"));
    t.push(Element::new(15, "P", "磷", "lín", "Phosphorus", 30974, 3, "VA"));
    t.push(Element::new(16, "S", "硫", "liú", "Sulfur", 32060, 3, "VIA"));
    t.push(Element::new(17, "Cl", "氯", "lǜ", "Chlorine", 35450, 3, "VIIA"));
    t.push(Element::new(18, "Ar", "氩", "yà", "Argon", 39948, 3, "0族"));
    assert(t@.len() == table().len());
    t
}

/// An atomic weight given in thousandths, written with three decimals.
pub open spec fn weight_text(w: nat) -> Seq<char> {
    decimal(w / 1000) + "."@ + seq![digit_char(w / 100), digit_char(w / 10), digit_char(w)]
}

/// The one-line description of an element that the lookup tools answer with.
pub open spec fn element_text(e: ElementView) -> Seq<char> {
    "元素名称: "@ + e.name + " ("@ + e.pronunciation + ", "@ + e.english_name
        + "), 原子序数: "@ + decimal(e.atomic_number) + ", 符号: "@ + e.symbol
        + ", 相对原子质量: "@ + weight_text(e.atomic_weight_milli) + ", 周期: "@
        + decimal(e.period) + ", 族: "@ + e.group
}

/// Answer to a lookup by an empty name.
pub open spec fn empty_name_text() -> Seq<char> {
    "元素名称不能为空"@
}

/// Answer to a lookup that matched no element.
pub open spec fn not_found_text() -> Seq<char> {
    "元素不存在"@
}

/// Answer to a lookup by a position outside 1..=118.
pub open spec fn out_of_range_text() -> Seq<char> {
    "原子序数必须在1-118之间"@
}

/// `i` is the first row of `t` whose name is `name`.
pub open spec fn first_named(t: Seq<ElementView>, name: Seq<char>, i: int) -> bool {
    &&& 0 <= i < t.len()
    &&& t[i].name == name
    &&& forall|j: int| 0 <= j < i ==> t[j].name != name
}

/// `i` is the first row of `t` whose atomic number is `n`.
pub open spec fn first_numbered(t: Seq<ElementView>, n: nat, i: int) -> bool {
    &&& 0 <= i < t.len()
    &&& t[i].atomic_number == n
    &&& forall|j: int| 0 <= j < i ==> t[j].atomic_number != n
}

pub open spec fn views(t: Seq<Element>) -> Seq<ElementView> {
    t.map_values(|e: Element| e@)
}

/// What a lookup by name answers.
pub open spec fn name_lookup_text(name: Seq<char>) -> Seq<char> {
    if name.len() == 0 {
        empty_name_text()
    } else if exists|i: int| first_named(table(), name, i) {
        element_text(table()[choose|i: int| first_named(table(), name, i)])
    } else {
        not_found_text()
    }
}

/// What a lookup by atomic number answers.
pub open spec fn position_lookup_text(position: nat) -> Seq<char> {
    if position < 1 || position > MAX_POSITION {
        out_of_range_text()
    } else if exists|i: int| first_numbered(table(), position, i) {
        element_text(table()[choose|i: int| first_numbered(table(), position, i)])
    } else {
        not_found_text()
    }
}

proof fn lemma_first_named_unique(t: Seq<ElementView>, name: Seq<char>, i: int, k: int)
    requires
        first_named(t, name, i),
        first_named(t, name, k),
    ensures
        i == k,
{
    if i < k {
        assert(t[i].name != name);
    } else if k < i {
        assert(t[k].name != name);
    }
}

proof fn lemma_first_numbered_unique(t: Seq<ElementView>, n: nat, i: int, k: int)
    requires
        first_numbered(t, n, i),
        first_numbered(t, n, k),
    ensures
        i == k,
{
    if i < k {
        assert(t[i].atomic_number != n);
    } else if k < i {
        assert(t[k].atomic_number != n);
    }
}

/// Writes the description of `e`.
pub fn describe(e: &Element) -> (r: String)
    ensures
        r@ == element_text(e@),
{
    let mut s = String::new();
    s.append("元素名称: ");
    s.append(e.name.as_str());
    s.append(" (");
    s.append(e.pronunciation.as_str());
    s.append(", ");
    s.append(e.english_name.as_str());
    s.append("), 原子序数: ");
    push_decimal(&mut s, e.atomic_number as u64);
    s.append(", 符号: ");
    s.append(e.symbol.as_str());
    s.append(", 相对原子质量: ");
    let w = e.atomic_weight_milli as u64;
    push_decimal(&mut s, w / 1000);
    s.append(".");
    push_digit(&mut s, (w / 100) % 10);
    push_digit(&mut s, (w / 10) % 10);
    push_digit(&mut s, w % 10);
    s.append(", 周期: ");
    push_decimal(&mut s, e.period as u64);
    s.append(", 族: ");
    s.append(e.group.as_str());
    proof {
        let v = e@;
        let wn = v.atomic_weight_milli;
        assert(digit_char(((w / 100) % 10) as nat) == digit_char(wn / 100));
        assert(digit_char(((w / 10) % 10) as nat) == digit_char(wn / 10));
        assert(digit_char((w % 10) as nat) == digit_char(wn));
        assert(s@ =~= element_text(v));
    }
    s
}

/// Index of the first element of `t` named `name`.
pub fn find_by_name(t: &Vec<Element>, name: &str) -> (r: Option<usize>)
    ensures
        match r {
            Some(i) => first_named(views(t@), name@, i as int),
            None => forall|j: int| 0 <= j < t@.len() ==> #[trigger] t@[j]@.name != name@,
        },
{
    let mut i: usize = 0;
    while i < t.len()
        invariant
            i <= t@.len(),
            forall|j: int| 0 <= j < i ==> #[trigger] t@[j]@.name != name@,
        decreases t@.len() - i,
    {
        if str_eq(t[i].name.as_str(), name) {
            return Some(i);
        }
        i = i + 1;
    }
    None
}

/// Index of the first element of `t` whose atomic number is `n`.
pub fn find_by_number(t: &Vec<Element>, n: u8) -> (r: Option<usize>)
    ensures
        match r {
            Some(i) => first_numbered(views(t@), n as nat, i as int),
            None => forall|j: int| 0 <= j < t@.len() ==> #[trigger] t@[j].atomic_number != n,
        },
{
    let mut i: usize = 0;
    while i < t.len()
        invariant
            i <= t@.len(),
            forall|j: int| 0 <= j < i ==> #[trigger] t@[j].atomic_number != n,
        decreases t@.len() - i,
    {
        if t[i].atomic_number == n {
            return Some(i);
        }
        i = i + 1;
    }
    None
}

/// Describes the element with the given Chinese name.
pub fn get_element_by_name(name: &str) -> (r: String)
    ensures
        r@ == name_lookup_text(name@),
{
    if name.unicode_len() == 0 {
        return String::from_str("元素名称不能为空");
    }
    let t = periodic_table();
    assert(views(t@) =~= table());
    match find_by_name(&t, name) {
        Some(i) => {
            proof {
                let k = choose|k: int| first_named(table(), name@, k);
                lemma_first_named_unique(table(), name@, i as int, k);
            }
            describe(&t[i])
        },
        None => {
            assert forall|k: int| !first_named(table(), name@, k) by {
                if 0 <= k < t@.len() {
                    assert(t@[k]@.name != name@);
                }
            }
            String::from_str("元素不存在")
        },
    }
}

/// Describes the element with the given atomic number.
pub fn get_element_by_position(position: u8) -> (r: String)
    ensures
        r@ == position_lookup_text(position as nat),
{
    if position < 1 || position as u64 > MAX_POSITION {
        return String::from_str("原子序数必须在1-118之间");
    }
    let t = periodic_table();
    assert(views(t@) =~= table());
    match find_by_number(&t, position) {
        Some(i) => {
            proof {
                let k = choose|k: int| first_numbered(table(), position as nat, k);
                lemma_first_numbered_unique(table(), position as nat, i as int, k);
            }
            describe(&t[i])
        },
        None => {
            assert forall|k: int| !first_numbered(table(), position as nat, k) by {
                if 0 <= k < t@.len() {
                    assert(t@[k].atomic_number != position);
                }
            }
            String::from_str("元素不存在")
        },
    }
}

} // verus!
