use craft_ide::analysis::{
    analyze_text, detect_category, detect_language, generate_recommendation,
    run_sidecar_analysis,
};
use craft_ide::text::{contains, is_whitespace, push_decimal, word_count};

#[test]
fn hello_report_scenario() {
    let report = analyze_text("Hello".to_string()).unwrap();
    assert!(report.contains("'Hello'"));
    assert!(report.contains("ความยาว: 5 ตัวอักษร"));
    assert!(report.contains("จำนวนคำ: 1 คำ"));
    assert!(report.contains("ภาษา: ไม่สามารถระบุได้"));
    assert!(report.contains("หมวดหมู่ที่เป็นไปได้: ทั่วไป"));
    assert!(report.contains("ข้อแนะนำ: ลองเพิ่มรายละเอียดให้มากขึ้น"));
}

#[test]
fn full_report_text() {
    let report = analyze_text("the data".to_string()).unwrap();
    let expected = "การวิเคราะห์ข้อความ:\n\n📝 ข้อความต้นฉบับ: 'the data'\n\n📊 สถิติ:\n• ความยาว: 8 ตัวอักษร\n• จำนวนคำ: 2 คำ\n\n🔍 การวิเคราะห์เนื้อหา:\n• ภาษา: อังกฤษ\n• หมวดหมู่ที่เป็นไปได้: การจัดการข้อมูล\n\n💡 ข้อแนะนำ: ลองเพิ่มรายละเอียดให้มากขึ้น";
    assert_eq!(report, expected);
}

#[test]
fn counts_follow_characters_not_bytes() {
    let report = analyze_text("การ ทดสอบ  ภาษา\tไทย".to_string()).unwrap();
    assert!(report.contains("ความยาว: 19 ตัวอักษร"));
    assert!(report.contains("จำนวนคำ: 4 คำ"));
    assert!(report.contains("ภาษา: ไทย"));
}

#[test]
fn empty_input_is_analysed() {
    let report = analyze_text(String::new()).unwrap();
    assert!(report.contains("ความยาว: 0 ตัวอักษร"));
    assert!(report.contains("จำนวนคำ: 0 คำ"));
}

#[test]
fn long_counts_are_written_in_decimal() {
    let input = "word ".repeat(123);
    let report = analyze_text(input).unwrap();
    assert!(report.contains("ความยาว: 615 ตัวอักษร"));
    assert!(report.contains("จำนวนคำ: 123 คำ"));
}

#[test]
fn sidecar_report_frames_input() {
    let report = run_sidecar_analysis("Hello".to_string()).unwrap();
    assert_eq!(
        report,
        "🔬 การวิเคราะห์ขั้นสูง (Sidecar)\n\n📥 ข้อมูลนำเข้า: Hello\n\n📊 สถิติ:\n• ความยาว: 5 ตัวอักษร\n• จำนวนคำ: 1 คำ\n\n🔍 การวิเคราะห์เนื้อหา:\n• ภาษา: ไม่สามารถระบุได้\n• หมวดหมู่ที่เป็นไปได้: ทั่วไป\n\n💡 ข้อแนะนำ: ลองเพิ่มรายละเอียดให้มากขึ้น\n\n⚙️ กระบวนการที่ดำเนินการ:\n• การวิเคราะห์ไวยากรณ์\n• การตรวจสอบความหมาย\n• การสร้างคำแนะนำ\n\n✅ สถานะ: การประมวลผลเสร็จสิ้น\n\n📤 ผลลัพธ์: พร้อมใช้งาน"
    );
}

#[test]
fn sidecar_hello_scenario() {
    let report = run_sidecar_analysis("Hello".to_string()).unwrap();
    assert!(report.contains("ความยาว: 5 ตัวอักษร"));
    assert!(report.contains("จำนวนคำ: 1 คำ"));
    assert!(report.contains("ภาษา: ไม่สามารถระบุได้"));
    assert!(report.contains("หมวดหมู่ที่เป็นไปได้: ทั่วไป"));
    assert!(report.contains("ข้อแนะนำ: ลองเพิ่มรายละเอียดให้มากขึ้น"));
}

#[test]
fn sidecar_counts_match_input() {
    let input = "การ design  of data\tนี้".to_string();
    let report = run_sidecar_analysis(input).unwrap();
    assert!(report.contains("ความยาว: 23 ตัวอักษร"));
    assert!(report.contains("จำนวนคำ: 5 คำ"));
    assert!(report.contains("ภาษา: ไทย"));
    assert!(report.contains("หมวดหมู่ที่เป็นไปได้: การจัดการข้อมูล"));
}

#[test]
fn language_guesses() {
    assert_eq!(detect_language("การทดสอบ"), "ไทย");
    assert_eq!(detect_language("more or less"), "อังกฤษ");
    assert_eq!(detect_language("the cat และ dog"), "ไทย");
    assert_eq!(detect_language("Hello"), "ไม่สามารถระบุได้");
}

#[test]
fn category_guesses() {
    assert_eq!(detect_category("a class here"), "การเขียนโปรแกรม");
    assert_eq!(detect_category("ฐานข้อมูล"), "การจัดการข้อมูล");
    assert_eq!(detect_category("graphic design"), "การออกแบบ");
    assert_eq!(detect_category("function and data"), "การเขียนโปรแกรม");
    assert_eq!(detect_category("Hello"), "ทั่วไป");
}

#[test]
fn recommendation_by_length_and_question() {
    let short = "Is this good?";
    assert_eq!(generate_recommendation(short), "ลองเพิ่มรายละเอียดให้มากขึ้น");
    let question = "a".repeat(49) + "?";
    assert_eq!(generate_recommendation(&question), "คำถามที่ดี! ลองสำรวจเพิ่มเติม");
    let statement = "a".repeat(50);
    assert_eq!(generate_recommendation(&statement), "เนื้อหาดีเยี่ยม อาจนำไปพัฒนาต่อได้");
    let thai_short = "ก".repeat(49);
    assert_eq!(generate_recommendation(&thai_short), "ลองเพิ่มรายละเอียดให้มากขึ้น");
}

#[test]
fn substring_search() {
    assert!(contains("hello world", "o w"));
    assert!(contains("abc", "abc"));
    assert!(contains("abc", ""));
    assert!(!contains("ab", "abc"));
    assert!(!contains("abd", "abc"));
    assert!(contains("ข้อมูลดี", "ข้อมูล"));
}

#[test]
fn whitespace_and_words() {
    assert!(is_whitespace(' '));
    assert!(is_whitespace('\u{3000}'));
    assert!(is_whitespace('\u{85}'));
    assert!(!is_whitespace('a'));
    assert!(!is_whitespace('\u{200B}'));
    assert_eq!(word_count("  one two\u{3000}three\n"), 3);
    assert_eq!(word_count(""), 0);
    assert_eq!(word_count("   "), 0);
}

#[test]
fn decimal_digits() {
    let mut s = String::from("n=");
    push_decimal(&mut s, 0);
    assert_eq!(s, "n=0");
    let mut t = String::new();
    push_decimal(&mut t, 18446744073709551615);
    assert_eq!(t, "18446744073709551615");
}
