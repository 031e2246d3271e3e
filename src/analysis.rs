//! The text heuristics: fixed keyword checks and the two reports built on them.

use vstd::prelude::*;
use crate::text::{contains, decimal, has_sub, push_decimal, word_count, words};

verus! {

pub const REPORT_HEAD: &'static str = "การวิเคราะห์ข้อความ:\n\n📝 ข้อความต้นฉบับ: '";
pub const REPORT_CHARS: &'static str = "'\n\n📊 สถิติ:\n• ความยาว: ";
pub const REPORT_WORDS: &'static str = " ตัวอักษร\n• จำนวนคำ: ";
pub const REPORT_LANGUAGE: &'static str = " คำ\n\n🔍 การวิเคราะห์เนื้อหา:\n• ภาษา: ";
pub const REPORT_CATEGORY: &'static str = "\n• หมวดหมู่ที่เป็นไปได้: ";
pub const REPORT_ADVICE: &'static str = "\n\n💡 ข้อแนะนำ: ";
pub const SIDECAR_HEAD: &'static str = "🔬 การวิเคราะห์ขั้นสูง (Sidecar)\n\n📥 ข้อมูลนำเข้า: ";
pub const SIDECAR_CHARS: &'static str = "\n\n📊 สถิติ:\n• ความยาว: ";
pub const SIDECAR_TAIL: &'static str = "\n\n⚙️ กระบวนการที่ดำเนินการ:\n• การวิเคราะห์ไวยากรณ์\n• การตรวจสอบความหมาย\n• การสร้างคำแนะนำ\n\n✅ สถานะ: การประมวลผลเสร็จสิ้น\n\n📤 ผลลัพธ์: พร้อมใช้งาน";

/// The language guess for `t`: Thai markers first, then English ones.
pub open spec fn language_of(t: Seq<char>) -> Seq<char> {
    if has_sub(t, "ที่"@) || has_sub(t, "การ"@) || has_sub(t, "และ"@) {
        "ไทย"@
    } else if has_sub(t, "the"@) || has_sub(t, "and"@) || has_sub(t, "or"@) {
        "อังกฤษ"@
    } else {
        "ไม่สามารถระบุได้"@
    }
}

/// The category guess for `t`: programming, then data, then design, else general.
pub open spec fn category_of(t: Seq<char>) -> Seq<char> {
    if has_sub(t, "โค้ด"@) || has_sub(t, "function"@) || has_sub(t, "class"@) {
        "การเขียนโปรแกรม"@
    } else if has_sub(t, "ข้อมูล"@) || has_sub(t, "ฐานข้อมูล"@) || has_sub(t, "data"@) {
        "การจัดการข้อมูล"@
    } else if has_sub(t, "การออกแบบ"@) || has_sub(t, "design"@) {
        "การออกแบบ"@
    } else {
        "ทั่วไป"@
    }
}

/// The advice for `t`: short texts (under 50 characters) are asked for more
/// detail, questions are encouraged, anything else is praised.
pub open spec fn recommendation_of(t: Seq<char>) -> Seq<char> {
    if t.len() < 50 {
        "ลองเพิ่มรายละเอียดให้มากขึ้น"@
    } else if has_sub(t, "?"@) {
        "คำถามที่ดี! ลองสำรวจเพิ่มเติม"@
    } else {
        "เนื้อหาดีเยี่ยม อาจนำไปพัฒนาต่อได้"@
    }
}

/// What both reports say of `s`, from the character count on: the character
/// and word counts, then the three guesses.
pub open spec fn findings(s: Seq<char>) -> Seq<char> {
    decimal(s.len()) + REPORT_WORDS@ + decimal(words(s)) + REPORT_LANGUAGE@ + language_of(s)
        + REPORT_CATEGORY@ + category_of(s) + REPORT_ADVICE@ + recommendation_of(s)
}

/// The basic report on `s`: the text itself, its character and word counts,
/// and the three guesses.
pub open spec fn report(s: Seq<char>) -> Seq<char> {
    REPORT_HEAD@ + s + REPORT_CHARS@ + findings(s)
}

/// The sidecar report on `s`: the text, its character and word counts and the
/// three guesses, then the steps that were run.
pub open spec fn sidecar_report(s: Seq<char>) -> Seq<char> {
    SIDECAR_HEAD@ + s + SIDECAR_CHARS@ + findings(s) + SIDECAR_TAIL@
}

/// The language guess for `text`.
pub fn detect_language(text: &str) -> (r: &str)
    ensures
        r@ == language_of(text@),
{
    if contains(text, "ที่") || contains(text, "การ") || contains(text, "และ") {
        "ไทย"
    } else if contains(text, "the") || contains(text, "and") || contains(text, "or") {
        "อังกฤษ"
    } else {
        "ไม่สามารถระบุได้"
    }
}

/// The category guess for `text`.
pub fn detect_category(text: &str) -> (r: &str)
    ensures
        r@ == category_of(text@),
{
    if contains(text, "โค้ด") || contains(text, "function") || contains(text, "class") {
        "การเขียนโปรแกรม"
    } else if contains(text, "ข้อมูล") || contains(text, "ฐานข้อมูล") || contains(text, "data") {
        "การจัดการข้อมูล"
    } else if contains(text, "การออกแบบ") || contains(text, "design") {
        "การออกแบบ"
    } else {
        "ทั่วไป"
    }
}

/// The advice for `text`.
pub fn generate_recommendation(text: &str) -> (r: &str)
    ensures
        r@ == recommendation_of(text@),
{
    if text.unicode_len() < 50 {
        "ลองเพิ่มรายละเอียดให้มากขึ้น"
    } else if contains(text, "?") {
        "คำถามที่ดี! ลองสำรวจเพิ่มเติม"
    } else {
        "เนื้อหาดีเยี่ยม อาจนำไปพัฒนาต่อได้"
    }
}

/// Appends the counts and guesses for `s` to `out`.
pub fn push_findings(out: &mut String, s: &str)
    ensures
        final(out)@ == old(out)@ + findings(s@),
{
    let char_count = s.unicode_len();
    let word_total = word_count(s);
    push_decimal(out, char_count);
    out.append(REPORT_WORDS);
    push_decimal(out, word_total);
    out.append(REPORT_LANGUAGE);
    out.append(detect_language(s));
    out.append(REPORT_CATEGORY);
    out.append(detect_category(s));
    out.append(REPORT_ADVICE);
    out.append(generate_recommendation(s));
    assert(out@ =~= old(out)@ + findings(s@));
}

/// The basic analysis of `input`; it never fails.
pub fn analyze_text(input: String) -> (r: Result<String, String>)
    ensures
        r is Ok,
        r->Ok_0@ == report(input@),
{
    let mut out = String::from_str(REPORT_HEAD);
    out.append(input.as_str());
    out.append(REPORT_CHARS);
    push_findings(&mut out, input.as_str());
    assert(out@ =~= report(input@));
    Ok(out)
}

/// The sidecar analysis of `input`; it never fails.
pub fn run_sidecar_analysis(input: String) -> (r: Result<String, String>)
    ensures
        r is Ok,
        r->Ok_0@ == sidecar_report(input@),
{
    let mut out = String::from_str(SIDECAR_HEAD);
    out.append(input.as_str());
    out.append(SIDECAR_CHARS);
    push_findings(&mut out, input.as_str());
    out.append(SIDECAR_TAIL);
    assert(out@ =~= sidecar_report(input@));
    Ok(out)
}

} // verus!
