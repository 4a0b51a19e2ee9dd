use vstd::prelude::*;

verus! {

/// Whether a text holds no line break.
pub open spec fn no_newline(s: Seq<char>) -> bool {
    forall|i: int| 0 <= i < s.len() ==> #[trigger] s[i] != '\n'
}

/// How many line breaks a text holds.
pub open spec fn newline_count(s: Seq<char>) -> int
    decreases s.len(),
{
    if s.len() == 0 {
        0
    } else {
        newline_count(s.drop_last()) + if s.last() == '\n' {
            1int
        } else {
            0int
        }
    }
}

proof fn lemma_newline_count_concat(a: Seq<char>, b: Seq<char>)
    ensures
        newline_count(a + b) == newline_count(a) + newline_count(b),
    decreases b.len(),
{
    if b.len() == 0 {
        assert(a + b =~= a);
    } else {
        lemma_newline_count_concat(a, b.drop_last());
        assert((a + b).drop_last() =~= a + b.drop_last());
    }
}

proof fn lemma_no_newline_concat(a: Seq<char>, b: Seq<char>)
    requires
        no_newline(a),
        no_newline(b),
    ensures
        no_newline(a + b),
{
    assert forall|i: int| 0 <= i < (a + b).len() implies #[trigger] (a + b)[i] != '\n' by {
        if i < a.len() {
            assert((a + b)[i] == a[i]);
        } else {
            assert((a + b)[i] == b[i - a.len()]);
        }
    }
}

proof fn lemma_newline_count_none(s: Seq<char>)
    requires
        no_newline(s),
    ensures
        newline_count(s) == 0,
    decreases s.len(),
{
    if s.len() > 0 {
        lemma_newline_count_none(s.drop_last());
    }
}

/// The big-font bitmap of one glyph: bit `k` of the mask says whether
/// segment cell `k` (three columns by five rows) is filled. Glyphs zero to
/// nine are the digits; the tenth is the plus sign.
pub open spec fn spec_font_mask(glyph: u32) -> u32 {
    if glyph == 0 {
        0x7b6f
    } else if glyph == 1 {
        0x4924
    } else if glyph == 2 {
        0x73e7
    } else if glyph == 3 {
        0x79e7
    } else if glyph == 4 {
        0x49ed
    } else if glyph == 5 {
        0x79cf
    } else if glyph == 6 {
        0x7bcf
    } else if glyph == 7 {
        0x4927
    } else if glyph == 8 {
        0x7bef
    } else if glyph == 9 {
        0x79ef
    } else {
        0x2e80
    }
}

fn font_mask(glyph: u32) -> (r: u32)
    ensures
        r == spec_font_mask(glyph),
{
    match glyph {
        0 => 0x7b6f,
        1 => 0x4924,
        2 => 0x73e7,
        3 => 0x79e7,
        4 => 0x49ed,
        5 => 0x79cf,
        6 => 0x7bcf,
        7 => 0x4927,
        8 => 0x7bef,
        9 => 0x79ef,
        _ => 0x2e80,
    }
}

/// All ten lines keep free of line breaks.
pub open spec fn lines_ok(lines: Seq<String>) -> bool {
    &&& lines.len() == 10
    &&& forall|i: int| 0 <= i < 10 ==> no_newline((#[trigger] lines[i])@)
}

/// Widen one glyph into the ten text lines of the big font: each filled
/// segment cell becomes a block four columns wide and two rows tall.
pub fn convert_digit_to_font(digit: u32, result: &mut Vec<String>)
    requires
        lines_ok(old(result)@),
    ensures
        lines_ok(final(result)@),
{
    let mask = font_mask(digit);
    let mut i: usize = 0;
    while i < 3
        invariant
            lines_ok(result@),
        decreases 3 - i,
    {
        let mut j: usize = 0;
        while j < 5
            invariant
                lines_ok(result@),
                i < 3,
            decreases 5 - j,
        {
            let k: u32 = (j as u32) * 3 + (i as u32);
            let filled = (mask >> k) & 1 == 1;
            let c: &str = if filled {
                "████"
            } else {
                "    "
            };
            let ghost before = result@;
            result[j * 2].append(c);
            result[j * 2 + 1].append(c);
            proof {
                reveal_strlit("████");
                reveal_strlit("    ");
                assert(no_newline(c@));
                assert forall|t: int| 0 <= t < 10 implies no_newline(
                    (#[trigger] result@[t])@,
                ) by {
                    if t == j * 2 || t == j * 2 + 1 {
                        lemma_no_newline_concat(before[t]@, c@);
                    } else {
                        assert(result@[t] == before[t]);
                    }
                }
            }
            j = j + 1;
        }
        i = i + 1;
    }
    let mut j: usize = 0;
    while j < 10
        invariant
            lines_ok(result@),
        decreases 10 - j,
    {
        let ghost before = result@;
        result[j].append("  ");
        proof {
            reveal_strlit("  ");
            assert forall|t: int| 0 <= t < 10 implies no_newline((#[trigger] result@[t])@) by {
                if t == j {
                    lemma_no_newline_concat(before[t]@, "  "@);
                } else {
                    assert(result@[t] == before[t]);
                }
            }
        }
        j = j + 1;
    }
}

/// The decimal point of the big font: a small block on the lowest rows.
pub fn dot_to_font(result: &mut Vec<String>)
    requires
        lines_ok(old(result)@),
    ensures
        lines_ok(final(result)@),
{
    let mut j: usize = 0;
    while j < 8
        invariant
            lines_ok(result@),
        decreases 8 - j,
    {
        let ghost before = result@;
        result[j].append("     ");
        proof {
            reveal_strlit("     ");
            assert forall|t: int| 0 <= t < 10 implies no_newline((#[trigger] result@[t])@) by {
                if t == j {
                    lemma_no_newline_concat(before[t]@, "     "@);
                } else {
                    assert(result@[t] == before[t]);
                }
            }
        }
        j = j + 1;
    }
    let ghost before = result@;
    result[8].append("███  ");
    result[9].append("███  ");
    proof {
        reveal_strlit("███  ");
        assert forall|t: int| 0 <= t < 10 implies no_newline((#[trigger] result@[t])@) by {
            if t == 8 || t == 9 {
                lemma_no_newline_concat(before[t]@, "███  "@);
            } else {
                assert(result@[t] == before[t]);
            }
        }
    }
}

/// The colon of the big font: two small blocks.
pub fn colon_to_font(result: &mut Vec<String>)
    requires
        lines_ok(old(result)@),
    ensures
        lines_ok(final(result)@),
{
    let mut j: usize = 0;
    while j < 4
        invariant
            lines_ok(result@),
        decreases 4 - j,
    {
        let ghost before = result@;
        result[j].append("     ");
        proof {
            reveal_strlit("     ");
            assert forall|t: int| 0 <= t < 10 implies no_newline((#[trigger] result@[t])@) by {
                if t == j {
                    lemma_no_newline_concat(before[t]@, "     "@);
                } else {
                    assert(result@[t] == before[t]);
                }
            }
        }
        j = j + 1;
    }
    let ghost before = result@;
    result[4].append("███  ");
    result[5].append("███  ");
    result[6].append("     ");
    result[7].append("     ");
    result[8].append("███  ");
    result[9].append("███  ");
    proof {
        reveal_strlit("███  ");
        reveal_strlit("     ");
        assert forall|t: int| 0 <= t < 10 implies no_newline((#[trigger] result@[t])@) by {
            if 4 <= t <= 9 {
                if t == 4 || t == 5 || t == 8 || t == 9 {
                    lemma_no_newline_concat(before[t]@, "███  "@);
                } else {
                    lemma_no_newline_concat(before[t]@, "     "@);
                }
            } else {
                assert(result@[t] == before[t]);
            }
        }
    }
}

/// Render a short time text into the ten-line big font: digits, the plus
/// sign, the colon and the decimal point each widen into their glyph. The
/// result always holds exactly ten lines, that is nine line breaks.
pub fn generate_font(text: &str) -> (r: String)
    ensures
        newline_count(r@) == 9,
{
    let mut result: Vec<String> = Vec::new();
    let mut j: usize = 0;
    while j < 10
        invariant
            result@.len() == j,
            0 <= j <= 10,
            forall|i: int| 0 <= i < j ==> no_newline((#[trigger] result@[i])@),
        decreases 10 - j,
    {
        result.push(String::new());
        j = j + 1;
    }
    let bytes = text.as_bytes();
    let length = bytes.len();
    let mut i: usize = 0;
    while i < length
        invariant
            lines_ok(result@),
            length == bytes@.len(),
        decreases length - i,
    {
        let b = bytes[i];
        if 48 <= b && b <= 57 {
            convert_digit_to_font((b - 48) as u32, &mut result);
        } else if b == 43 {
            convert_digit_to_font(10, &mut result);
        } else if b == 58 {
            colon_to_font(&mut result);
        } else {
            dot_to_font(&mut result);
        }
        i = i + 1;
    }
    let mut out = String::new();
    let mut j: usize = 0;
    while j < 10
        invariant
            lines_ok(result@),
            0 <= j <= 10,
            newline_count(out@) == if j == 0 {
                0int
            } else {
                j - 1
            },
        decreases 10 - j,
    {
        let ghost before = out@;
        if j > 0 {
            out.append("\n");
            proof {
                reveal_strlit("\n");
                assert(out@ =~= before + "\n"@);
                lemma_newline_count_concat(before, "\n"@);
                assert(newline_count("\n"@) == 1) by {
                    reveal_strlit("\n");
                    reveal_with_fuel(newline_count, 2);
                    assert("\n"@.drop_last() =~= Seq::<char>::empty());
                }
            }
        }
        let ghost mid = out@;
        let line = &result[j];
        out.append(line.as_str());
        proof {
            lemma_newline_count_concat(mid, result@[j as int]@);
            lemma_newline_count_none(result@[j as int]@);
        }
        j = j + 1;
    }
    out
}

} // verus!
