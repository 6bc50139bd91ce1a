//! GPU telemetry: the record every source fills, the three sources' parsers,
//! the ordered fallback between them, and the report text.
use vstd::prelude::*;
use crate::text::{
    chars_of, concat, contains, decimal, decimal_text, digit_char, has_sub, parse_unsigned,
    is_digit, split, split_on, strip_last, strip_last_char, string_of, trim, trimmed,
    unsigned_value,
};

verus! {

/// One GPU sample, each field ready for display.
pub struct GPUInfo {
    pub name: String,
    pub temperature: String,
    pub utilization: String,
    pub memory_used: String,
    pub memory_total: String,
}

/// The text of each field of a `GPUInfo`.
pub struct SampleView {
    pub name: Seq<char>,
    pub temperature: Seq<char>,
    pub utilization: Seq<char>,
    pub memory_used: Seq<char>,
    pub memory_total: Seq<char>,
}

impl View for GPUInfo {
    type V = SampleView;

    open spec fn view(&self) -> SampleView {
        SampleView {
            name: self.name@,
            temperature: self.temperature@,
            utilization: self.utilization@,
            memory_used: self.memory_used@,
            memory_total: self.memory_total@,
        }
    }
}

/// Why a probe gave no sample.
#[derive(Clone, Copy, Debug, PartialEq, Eq, Structural)]
pub enum ProbeError {
    /// The tool could not be launched.
    ToolNotFound,
    /// The tool ran and reported failure.
    ToolError,
    /// The tool's output lacked the expected shape.
    ParseError,
    /// Every source failed.
    AllFailed,
}

pub open spec fn error_text(e: ProbeError) -> Seq<char> {
    match e {
        ProbeError::ToolNotFound => "tool not found"@,
        ProbeError::ToolError => "tool exited with an error"@,
        ProbeError::ParseError => "unexpected tool output"@,
        ProbeError::AllFailed => "All GPU detection methods failed"@,
    }
}

impl ProbeError {
    /// A one-line description of the failure.
    pub fn message(&self) -> (r: String)
        ensures
            r@ == error_text(*self),
    {
        match self {
            ProbeError::ToolNotFound => String::from_str("tool not found"),
            ProbeError::ToolError => String::from_str("tool exited with an error"),
            ProbeError::ParseError => String::from_str("unexpected tool output"),
            ProbeError::AllFailed => String::from_str("All GPU detection methods failed"),
        }
    }
}

/// What came of launching an outside tool.
pub enum ToolRun {
    /// It could not be launched.
    Missing,
    /// It exited with a failure status.
    Failed,
    /// It exited successfully, with this standard output.
    Output(String),
}

/// The output of a successful run, or the error for a failed one.
pub fn tool_output(run: ToolRun) -> (r: Result<String, ProbeError>)
    ensures
        match run {
            ToolRun::Missing => r == Err::<String, ProbeError>(ProbeError::ToolNotFound),
            ToolRun::Failed => r == Err::<String, ProbeError>(ProbeError::ToolError),
            ToolRun::Output(s) => r matches Ok(t) && t@ == s@,
        },
{
    match run {
        ToolRun::Missing => Err(ProbeError::ToolNotFound),
        ToolRun::Failed => Err(ProbeError::ToolError),
        ToolRun::Output(s) => Ok(s),
    }
}

/// The sources, in the order they are tried.
#[derive(Clone, Copy, Debug, PartialEq, Eq, Structural)]
pub enum Tool {
    /// The primary vendor tool, with one comma-separated line.
    Primary,
    /// The secondary vendor tool, with `key: value` lines.
    Secondary,
    /// The operating system's management query, with `Key : Value` lines.
    Fallback,
}

pub open spec fn next_tool(t: Tool) -> Option<Tool> {
    match t {
        Tool::Primary => Some(Tool::Secondary),
        Tool::Secondary => Some(Tool::Fallback),
        Tool::Fallback => None,
    }
}

/// What to do after a source has been tried.
pub enum ProbeStep {
    /// Try this source next.
    Run(Tool),
    /// The probe is over, with this result.
    Done(Result<GPUInfo, ProbeError>),
}

pub open spec fn step_after(tool: Tool, outcome: Result<GPUInfo, ProbeError>) -> ProbeStep {
    match outcome {
        Ok(s) => ProbeStep::Done(Ok(s)),
        Err(_) => match next_tool(tool) {
            Some(n) => ProbeStep::Run(n),
            None => ProbeStep::Done(Err(ProbeError::AllFailed)),
        },
    }
}

/// The first source to try.
pub fn first_tool() -> (r: Tool)
    ensures
        r == Tool::Primary,
{
    Tool::Primary
}

/// The selector's decision once `tool` has given `outcome`: a sample ends the
/// probe; a failure moves on to the next source, or, after the last one, ends
/// the probe with `AllFailed`.
pub fn get_gpu_info(tool: Tool, outcome: Result<GPUInfo, ProbeError>) -> (r: ProbeStep)
    ensures
        r == step_after(tool, outcome),
{
    match outcome {
        Ok(s) => ProbeStep::Done(Ok(s)),
        Err(_) => match tool {
            Tool::Primary => ProbeStep::Run(Tool::Secondary),
            Tool::Secondary => ProbeStep::Run(Tool::Fallback),
            Tool::Fallback => ProbeStep::Done(Err(ProbeError::AllFailed)),
        },
    }
}

/// The five trimmed fields of the primary tool's line, before rendering.
pub struct PrimaryLine {
    pub name: String,
    pub temperature: String,
    pub utilization: String,
    pub memory_used: String,
    pub memory_total: String,
}

/// The comma-separated fields of the primary tool's output.
pub open spec fn primary_fields(out: Seq<char>) -> Seq<Seq<char>> {
    split_on(trimmed(out), ',')
}

/// The error the primary tool's output gives: `ParseError` where it has
/// fewer than five fields.
pub open spec fn primary_error(out: Seq<char>) -> Option<ProbeError> {
    if primary_fields(out).len() < 5 {
        Some(ProbeError::ParseError)
    } else {
        None
    }
}

/// The primary tool's output, split: at least five fields, or `ParseError`.
pub fn split_primary(out: &str) -> (r: Result<PrimaryLine, ProbeError>)
    ensures
        (r is Err) == (primary_error(out@) is Some),
        r matches Err(e) ==> primary_error(out@) == Some(e),
        r matches Ok(l) ==> {
            let f = primary_fields(out@);
            &&& l.name@ == trimmed(f[0])
            &&& l.temperature@ == trimmed(f[1])
            &&& l.utilization@ == trimmed(f[2])
            &&& l.memory_used@ == trimmed(f[3])
            &&& l.memory_total@ == trimmed(f[4])
        },
{
    let cs = chars_of(out);
    let t = trim(&cs);
    let parts = split(&t, ',');
    if parts.len() < 5 {
        return Err(ProbeError::ParseError);
    }
    assert(parts@[0]@ == primary_fields(out@)[0]);
    assert(parts@[1]@ == primary_fields(out@)[1]);
    assert(parts@[2]@ == primary_fields(out@)[2]);
    assert(parts@[3]@ == primary_fields(out@)[3]);
    assert(parts@[4]@ == primary_fields(out@)[4]);
    Ok(PrimaryLine {
        name: string_of(&trim(&parts[0])),
        temperature: string_of(&trim(&parts[1])),
        utilization: string_of(&trim(&parts[2])),
        memory_used: string_of(&trim(&parts[3])),
        memory_total: string_of(&trim(&parts[4])),
    })
}

pub open spec fn magnitude(t: int) -> nat {
    if t < 0 {
        (-t) as nat
    } else {
        t as nat
    }
}

/// `t` tenths written with exactly one digit after the point: `-1.5`, `0.0`, `42.0`.
pub open spec fn tenths_text(t: int) -> Seq<char> {
    (if t < 0 {
        seq!['-']
    } else {
        Seq::empty()
    }) + decimal(magnitude(t) / 10) + seq!['.', digit_char(magnitude(t) % 10)]
}

/// The rendering of a reading in tenths; an unreadable one counts as zero.
pub open spec fn reading_text(t: Option<i64>) -> Seq<char> {
    match t {
        Some(v) => tenths_text(v as int),
        None => tenths_text(0),
    }
}

/// `t` tenths written with one digit after the point.
pub fn one_decimal(t: i64) -> (r: Vec<char>)
    ensures
        r@ == tenths_text(t as int),
{
    let m: u64 = if t < 0 {
        (-(t as i128)) as u64
    } else {
        t as u64
    };
    let mut r: Vec<char> = if t < 0 {
        vec!['-']
    } else {
        Vec::new()
    };
    let mut w = decimal_text(m / 10);
    r.append(&mut w);
    let d = crate::text::digit_of(m % 10);
    r.push('.');
    r.push(d);
    assert(r@ =~= tenths_text(t as int));
    r
}

pub open spec fn primary_view(l: PrimaryLine, temp: Option<i64>, util: Option<i64>) -> SampleView {
    SampleView {
        name: l.name@,
        temperature: reading_text(temp) + " \u{b0}C"@,
        utilization: reading_text(util) + " %"@,
        memory_used: l.memory_used@ + " MB"@,
        memory_total: l.memory_total@ + " MB"@,
    }
}

/// The sample from the primary tool's fields and its two readings in tenths
/// (`None` where the field is not a number): readings with one decimal digit
/// and their unit, memory in the tool's megabytes.
pub fn primary_sample(line: &PrimaryLine, temp_tenths: Option<i64>, util_tenths: Option<i64>) -> (r: GPUInfo)
    ensures
        r@ == primary_view(*line, temp_tenths, util_tenths),
{
    let temp = match temp_tenths {
        Some(v) => v,
        None => 0,
    };
    let util = match util_tenths {
        Some(v) => v,
        None => 0,
    };
    let temperature = concat(one_decimal(temp), " \u{b0}C");
    let utilization = concat(one_decimal(util), " %");
    let memory_used = concat(chars_of(line.memory_used.as_str()), " MB");
    let memory_total = concat(chars_of(line.memory_total.as_str()), " MB");
    GPUInfo {
        name: line.name.clone(),
        temperature: string_of(&temperature),
        utilization: string_of(&utilization),
        memory_used: string_of(&memory_used),
        memory_total: string_of(&memory_total),
    }
}

/// The trimmed text after the first colon of `line`, up to a second one.
pub open spec fn field_value(line: Seq<char>) -> Option<Seq<char>> {
    let p = split_on(line, ':');
    if p.len() > 1 {
        Some(trimmed(p[1]))
    } else {
        None
    }
}

fn value_of(line: &Vec<char>) -> (r: Option<Vec<char>>)
    ensures
        match field_value(line@) {
            Some(v) => r matches Some(x) && x@ == v,
            None => r is None,
        },
{
    let p = split(line, ':');
    if p.len() > 1 {
        Some(trim(&p[1]))
    } else {
        None
    }
}

/// Name, temperature and utilization found so far in the secondary tool's output.
pub struct SecondaryScan {
    pub name: Seq<char>,
    pub temperature: Seq<char>,
    pub utilization: Seq<char>,
}

/// One line of the secondary tool's output applied to what was found before.
pub open spec fn secondary_step(st: SecondaryScan, line: Seq<char>) -> SecondaryScan {
    if has_sub(line, "GPU"@) && has_sub(line, "model"@) {
        match field_value(line) {
            Some(v) => SecondaryScan { name: v, ..st },
            None => st,
        }
    } else if has_sub(line, "Temperature"@) {
        match field_value(line) {
            Some(v) => SecondaryScan { temperature: trimmed(strip_last(v, 'C')) + "\u{b0}C"@, ..st },
            None => st,
        }
    } else if has_sub(line, "GPU Load"@) {
        match field_value(line) {
            Some(v) => SecondaryScan { utilization: v, ..st },
            None => st,
        }
    } else {
        st
    }
}

pub open spec fn secondary_scan(lines: Seq<Seq<char>>) -> SecondaryScan
    decreases lines.len(),
{
    if lines.len() == 0 {
        SecondaryScan { name: Seq::empty(), temperature: Seq::empty(), utilization: Seq::empty() }
    } else {
        secondary_step(secondary_scan(lines.drop_last()), lines.last())
    }
}

pub open spec fn secondary_view(out: Seq<char>) -> SampleView {
    let st = secondary_scan(split_on(out, '\n'));
    SampleView {
        name: if st.name.len() == 0 {
            "AMD Radeon"@
        } else {
            st.name
        },
        temperature: st.temperature,
        utilization: st.utilization,
        memory_used: Seq::empty(),
        memory_total: Seq::empty(),
    }
}

/// The sample from the secondary tool's output. Each line is matched by
/// substring: one with `GPU` and `model` gives the name, one with
/// `Temperature` the temperature (one trailing `C` replaced by `°C`), one with
/// `GPU Load` the utilization; a later line wins over an earlier one, other
/// lines are ignored. A field never found stays empty; a missing name is
/// `AMD Radeon`. This source gives no memory figures.
pub fn secondary_sample(out: &str) -> (r: GPUInfo)
    ensures
        r@ == secondary_view(out@),
{
    let cs = chars_of(out);
    let lines = split(&cs, '\n');
    let gpu = chars_of("GPU");
    let model = chars_of("model");
    let temp_key = chars_of("Temperature");
    let load_key = chars_of("GPU Load");
    let mut name: Vec<char> = Vec::new();
    let mut temperature: Vec<char> = Vec::new();
    let mut utilization: Vec<char> = Vec::new();
    let mut i: usize = 0;
    while i < lines.len()
        invariant
            i <= lines.len(),
            crate::text::views(lines@) == split_on(cs@, '\n'),
            gpu@ == "GPU"@,
            model@ == "model"@,
            temp_key@ == "Temperature"@,
            load_key@ == "GPU Load"@,
            secondary_scan(crate::text::views(lines@).subrange(0, i as int)) == (SecondaryScan {
                name: name@,
                temperature: temperature@,
                utilization: utilization@,
            }),
        decreases lines.len() - i,
    {
        let line = &lines[i];
        assert(crate::text::views(lines@).subrange(0, i + 1).drop_last()
            =~= crate::text::views(lines@).subrange(0, i as int));
        if contains(line, &gpu) && contains(line, &model) {
            if let Some(v) = value_of(line) {
                name = v;
            }
        } else if contains(line, &temp_key) {
            if let Some(v) = value_of(line) {
                temperature = concat(trim(&strip_last_char(&v, 'C')), "\u{b0}C");
            }
        } else if contains(line, &load_key) {
            if let Some(v) = value_of(line) {
                utilization = v;
            }
        }
        i += 1;
    }
    assert(crate::text::views(lines@).subrange(0, lines.len() as int) =~= split_on(cs@, '\n'));
    let name = if name.len() == 0 {
        String::from_str("AMD Radeon")
    } else {
        string_of(&name)
    };
    GPUInfo {
        name,
        temperature: string_of(&temperature),
        utilization: string_of(&utilization),
        memory_used: String::new(),
        memory_total: String::new(),
    }
}

/// A byte count as the management query writes it, in whole decimal
/// megabytes (rounded down); an unreadable count is zero.
pub open spec fn megabytes_text(v: Seq<char>) -> Seq<char> {
    let bytes = match unsigned_value(v) {
        Some(n) => n,
        None => 0,
    };
    decimal(bytes / 1_000_000) + " MB"@
}

/// Name and total memory found so far in the management query's output.
pub struct FallbackScan {
    pub name: Seq<char>,
    pub memory_total: Seq<char>,
}

/// One line of the management query's output applied to what was found before.
pub open spec fn fallback_step(st: FallbackScan, line: Seq<char>) -> FallbackScan {
    if has_sub(line, "Name"@) {
        match field_value(line) {
            Some(v) => FallbackScan { name: v, ..st },
            None => st,
        }
    } else if has_sub(line, "AdapterRAM"@) {
        match field_value(line) {
            Some(v) => FallbackScan { memory_total: megabytes_text(v), ..st },
            None => st,
        }
    } else {
        st
    }
}

pub open spec fn fallback_scan(lines: Seq<Seq<char>>) -> FallbackScan
    decreases lines.len(),
{
    if lines.len() == 0 {
        FallbackScan { name: Seq::empty(), memory_total: "N/A"@ }
    } else {
        fallback_step(fallback_scan(lines.drop_last()), lines.last())
    }
}

pub open spec fn fallback_view(out: Seq<char>) -> SampleView {
    let st = fallback_scan(split_on(out, '\n'));
    SampleView {
        name: if st.name.len() == 0 {
            "Unknown device"@
        } else {
            st.name
        },
        temperature: "N/A (requires nvidia-smi or radeon-smi)"@,
        utilization: "N/A (requires nvidia-smi or radeon-smi)"@,
        memory_used: "N/A"@,
        memory_total: st.memory_total,
    }
}

/// The sample from the management query's output. A line with `Name` gives
/// the name, one with `AdapterRAM` the total memory, a byte count turned into
/// decimal megabytes; a later line wins over an earlier one, other lines are
/// ignored. A missing name is `Unknown device` and missing memory `N/A`;
/// temperature and utilization, which this source cannot give, say that a
/// vendor tool is needed, and the memory in use reads `N/A`.
pub fn fallback_sample(out: &str) -> (r: GPUInfo)
    ensures
        r@ == fallback_view(out@),
{
    let cs = chars_of(out);
    let lines = split(&cs, '\n');
    let name_key = chars_of("Name");
    let ram_key = chars_of("AdapterRAM");
    let mut name: Vec<char> = Vec::new();
    let mut memory_total: Vec<char> = chars_of("N/A");
    let mut i: usize = 0;
    while i < lines.len()
        invariant
            i <= lines.len(),
            crate::text::views(lines@) == split_on(cs@, '\n'),
            name_key@ == "Name"@,
            ram_key@ == "AdapterRAM"@,
            fallback_scan(crate::text::views(lines@).subrange(0, i as int)) == (FallbackScan {
                name: name@,
                memory_total: memory_total@,
            }),
        decreases lines.len() - i,
    {
        let line = &lines[i];
        assert(crate::text::views(lines@).subrange(0, i + 1).drop_last()
            =~= crate::text::views(lines@).subrange(0, i as int));
        if contains(line, &name_key) {
            if let Some(v) = value_of(line) {
                name = v;
            }
        } else if contains(line, &ram_key) {
            if let Some(v) = value_of(line) {
                let bytes = match parse_unsigned(&v) {
                    Some(n) => n,
                    None => 0,
                };
                memory_total = concat(decimal_text(bytes / 1_000_000), " MB");
            }
        }
        i += 1;
    }
    assert(crate::text::views(lines@).subrange(0, lines.len() as int) =~= split_on(cs@, '\n'));
    let name = if name.len() == 0 {
        String::from_str("Unknown device")
    } else {
        string_of(&name)
    };
    GPUInfo {
        name,
        temperature: String::from_str("N/A (requires nvidia-smi or radeon-smi)"),
        utilization: String::from_str("N/A (requires nvidia-smi or radeon-smi)"),
        memory_used: String::from_str("N/A"),
        memory_total: string_of(&memory_total),
    }
}

/// The report for a probe's result: a header and one `Label: value` line per
/// field, or one line with the error.
pub open spec fn report_text(result: Result<GPUInfo, ProbeError>) -> Seq<char> {
    match result {
        Ok(i) => "=== GPU Information ===\nName: "@ + i.name@ + "\nTemperature: "@
            + i.temperature@ + "\nUsage: "@ + i.utilization@ + "\nMemory Used: "@
            + i.memory_used@ + "\nMemory Total: "@ + i.memory_total@ + "\n"@,
        Err(e) => "Error: "@ + error_text(e),
    }
}

fn append_string(a: Vec<char>, s: &String) -> (r: Vec<char>)
    ensures
        r@ == a@ + s@,
{
    concat(a, s.as_str())
}

/// The report text for the result of a probe.
pub fn display_gpu_info(result: &Result<GPUInfo, ProbeError>) -> (r: String)
    ensures
        r@ == report_text(*result),
{
    match result {
        Ok(i) => {
            let t = chars_of("=== GPU Information ===\nName: ");
            let t = append_string(t, &i.name);
            let t = concat(t, "\nTemperature: ");
            let t = append_string(t, &i.temperature);
            let t = concat(t, "\nUsage: ");
            let t = append_string(t, &i.utilization);
            let t = concat(t, "\nMemory Used: ");
            let t = append_string(t, &i.memory_used);
            let t = concat(t, "\nMemory Total: ");
            let t = append_string(t, &i.memory_total);
            let t = concat(t, "\n");
            string_of(&t)
        },
        Err(e) => {
            let t = chars_of("Error: ");
            let m = e.message();
            string_of(&append_string(t, &m))
        },
    }
}

/// `s` is a number with exactly one digit after its only decimal point.
pub open spec fn has_one_decimal(s: Seq<char>) -> bool {
    &&& s.len() >= 3
    &&& s[s.len() - 2] == '.'
    &&& is_digit(s[s.len() - 1])
    &&& forall|i: int| 0 <= i < s.len() - 2 ==> #[trigger] s[i] != '.'
}

proof fn lemma_digit_char(d: nat)
    requires
        d < 10,
    ensures
        is_digit(digit_char(d)),
{
    let ds = seq!['0', '1', '2', '3', '4', '5', '6', '7', '8', '9'];
    assert(ds[0] == '0' && ds[1] == '1' && ds[2] == '2' && ds[3] == '3' && ds[4] == '4');
    assert(ds[5] == '5' && ds[6] == '6' && ds[7] == '7' && ds[8] == '8' && ds[9] == '9');
}

proof fn lemma_decimal_digits(n: nat)
    ensures
        decimal(n).len() >= 1,
        forall|i: int| 0 <= i < decimal(n).len() ==> is_digit(#[trigger] decimal(n)[i]),
    decreases n,
{
    lemma_digit_char(n % 10);
    if n >= 10 {
        lemma_decimal_digits(n / 10);
        let s = decimal(n);
        assert forall|i: int| 0 <= i < s.len() implies is_digit(#[trigger] s[i]) by {
            if i < s.len() - 1 {
                assert(s[i] == decimal(n / 10)[i]);
            }
        }
    }
}

/// A reading in tenths is written with exactly one digit after the point,
/// whatever its value.
pub proof fn lemma_tenths_one_decimal(t: int)
    ensures
        has_one_decimal(tenths_text(t)),
{
    let m = magnitude(t);
    lemma_decimal_digits(m / 10);
    lemma_digit_char(m % 10);
    let s = tenths_text(t);
    let d = decimal(m / 10);
    let sign: Seq<char> = if t < 0 { seq!['-'] } else { Seq::empty() };
    assert(s == sign + d + seq!['.', digit_char(m % 10)]);
    assert forall|i: int| 0 <= i < s.len() - 2 implies #[trigger] s[i] != '.' by {
        if i >= sign.len() {
            assert(s[i] == d[i - sign.len()]);
        }
    }
}

/// The primary tool's temperature and utilization carry exactly one decimal
/// digit before their unit, whatever precision the tool printed.
pub proof fn lemma_primary_one_decimal(l: PrimaryLine, temp: Option<i64>, util: Option<i64>)
    ensures
        primary_view(l, temp, util).temperature == reading_text(temp) + " \u{b0}C"@,
        primary_view(l, temp, util).utilization == reading_text(util) + " %"@,
        has_one_decimal(reading_text(temp)),
        has_one_decimal(reading_text(util)),
{
    match temp {
        Some(v) => lemma_tenths_one_decimal(v as int),
        None => lemma_tenths_one_decimal(0),
    }
    match util {
        Some(v) => lemma_tenths_one_decimal(v as int),
        None => lemma_tenths_one_decimal(0),
    }
}

/// A temperature that is not a number is written as zero.
pub proof fn lemma_unreadable_temperature(l: PrimaryLine, util: Option<i64>)
    ensures
        primary_view(l, None, util).temperature == "0.0 \u{b0}C"@,
{
    reveal_strlit("0.0 \u{b0}C");
    reveal_strlit(" \u{b0}C");
    assert(decimal(0) == seq!['0']);
    assert(primary_view(l, None, util).temperature =~= "0.0 \u{b0}C"@);
}

/// A primary line with fewer than five fields is a `ParseError`, after which
/// the secondary tool is tried.
pub proof fn lemma_short_primary_line(out: Seq<char>)
    requires
        primary_fields(out).len() < 5,
    ensures
        primary_error(out) == Some(ProbeError::ParseError),
        step_after(Tool::Primary, Err(primary_error(out).unwrap())) == ProbeStep::Run(
            Tool::Secondary,
        ),
{
}

/// When every source fails, whatever the failures, the probe ends with
/// `AllFailed` after trying each source once, and the report is the one-line
/// error.
pub proof fn lemma_all_sources_fail(e1: ProbeError, e2: ProbeError, e3: ProbeError)
    ensures
        step_after(Tool::Primary, Err(e1)) == ProbeStep::Run(Tool::Secondary),
        step_after(Tool::Secondary, Err(e2)) == ProbeStep::Run(Tool::Fallback),
        step_after(Tool::Fallback, Err(e3)) == ProbeStep::Done(Err(ProbeError::AllFailed)),
        report_text(Err(ProbeError::AllFailed)) == "Error: All GPU detection methods failed"@,
{
    reveal_strlit("Error: ");
    reveal_strlit("All GPU detection methods failed");
    reveal_strlit("Error: All GPU detection methods failed");
    assert(report_text(Err(ProbeError::AllFailed)) =~= "Error: All GPU detection methods failed"@);
}

/// Probing twice over the same tool output gives the same sample from each
/// source, and the same report.
pub proof fn lemma_probe_repeatable(a: Seq<char>, b: Seq<char>)
    requires
        a == b,
    ensures
        primary_fields(a) == primary_fields(b),
        secondary_view(a) == secondary_view(b),
        fallback_view(a) == fallback_view(b),
{
}

} // verus!
