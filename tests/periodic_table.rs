use hello_mcp::periodic_table::{
    describe, get_element_by_name, get_element_by_position, periodic_table,
};

#[test]
fn test_get_element_by_name() {
    let table = periodic_table();
    let silicon = table.iter().find(|e| e.name == "硅");
    assert!(silicon.is_some());
    let silicon = silicon.unwrap();
    assert_eq!(silicon.symbol, "Si");
    assert_eq!(silicon.atomic_number, 14);
    assert_eq!(silicon.english_name, "Silicon");
}

#[test]
fn test_get_element_by_position() {
    let table = periodic_table();
    let element = table.iter().find(|e| e.atomic_number == 14);
    assert!(element.is_some());
    let element = element.unwrap();
    assert_eq!(element.symbol, "Si");
    assert_eq!(element.name, "硅");
    assert_eq!(element.english_name, "Silicon");
}

#[test]
fn test_get_hydrogen() {
    let table = periodic_table();
    let hydrogen = table.iter().find(|e| e.name == "氢");
    assert!(hydrogen.is_some());
    let hydrogen = hydrogen.unwrap();
    assert_eq!(hydrogen.symbol, "H");
    assert_eq!(hydrogen.atomic_number, 1);
}

#[test]
fn test_get_carbon() {
    let table = periodic_table();
    let carbon = table.iter().find(|e| e.atomic_number == 6);
    assert!(carbon.is_some());
    let carbon = carbon.unwrap();
    assert_eq!(carbon.symbol, "C");
    assert_eq!(carbon.name, "碳");
}

#[test]
fn test_periodic_table_not_empty() {
    let table = periodic_table();
    assert!(!table.is_empty());
    assert!(table.len() > 0);
}

#[test]
fn table_is_ordered_by_atomic_number() {
    let table = periodic_table();
    assert_eq!(table.len(), 18);
    for (i, e) in table.iter().enumerate() {
        assert_eq!(e.atomic_number as usize, i + 1);
    }
}

#[test]
fn hydrogen_is_described_exactly() {
    assert_eq!(
        get_element_by_name("氢"),
        "元素名称: 氢 (qīng, Hydrogen), 原子序数: 1, 符号: H, 相对原子质量: 1.008, 周期: 1, 族: IA"
    );
}

#[test]
fn weights_show_three_decimals() {
    let table = periodic_table();
    let helium = describe(&table[1]);
    assert!(helium.contains("相对原子质量: 4.003,"));
    let sulfur = describe(&table[15]);
    assert!(sulfur.contains("相对原子质量: 32.060,"));
    let neon = describe(&table[9]);
    assert!(neon.contains("相对原子质量: 20.180,"));
}

#[test]
fn empty_name_is_refused() {
    assert_eq!(get_element_by_name(""), "元素名称不能为空");
}

#[test]
fn unknown_name_is_not_found() {
    assert_eq!(get_element_by_name("金"), "元素不存在");
}

#[test]
fn position_lookup_describes_carbon() {
    let text = get_element_by_position(6);
    assert!(text.starts_with("元素名称: 碳 (tàn, Carbon), 原子序数: 6, 符号: C"));
    assert!(text.ends_with("周期: 2, 族: IVA"));
}

#[test]
fn position_bounds() {
    assert_eq!(get_element_by_position(0), "原子序数必须在1-118之间");
    assert_eq!(get_element_by_position(119), "原子序数必须在1-118之间");
    assert_eq!(get_element_by_position(255), "原子序数必须在1-118之间");
    assert_eq!(get_element_by_position(118), "元素不存在");
    assert_eq!(get_element_by_position(19), "元素不存在");
    assert!(get_element_by_position(18).contains("符号: Ar"));
    assert!(get_element_by_position(1).contains("符号: H"));
}
