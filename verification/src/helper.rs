//! The elevated helper's command line: which operation it is asked for, its
//! arguments, the result file name it may write (a plain name inside the
//! fixed results directory, never a path), and the rows of a metric change.

use vstd::prelude::*;
use crate::text::{chars_of, has_prefix, has_substr, is_ascii_alnum, lacks_char, split_chars, split_on, starts_with, str_eq, to_owned_string, utf8_len, utf8_len_exceeds, char_is_ascii_alnum, concat2, concat3, string_from_chars};
use crate::render::{debug_str, debug_quote, parse_u32, u32_parse_error};
use crate::text::{decimal, digits_value, parses_unsigned, unsigned_digits};

verus! {

/// An operation the helper carries out.
#[derive(Debug, Clone, PartialEq)]
pub enum HelperOp {
    /// Set DNS and enable DoH on the listed adapters (`family`: "ipv4",
    /// "ipv6" or "both").
    Dns { targets: Vec<String>, family: String },
    /// Restore automatic DNS on the listed adapters.
    ClearDns { targets: Vec<String> },
    /// Change an adapter's MAC address.
    Mac { guid: String, mac_no_dash: String },
    /// Enable a disabled adapter.
    EnableAdapter { name: String },
    /// Enable a disabled device.
    EnableDevice { instance_id: String },
    /// Set interface metrics; each row is `guid:family:automatic:metric`.
    SetMetric { rows: Vec<String> },
    /// Register the scheduled-task proxy.
    RegisterTaskProxy,
    /// Check the channel (writing the result is the whole test).
    SelfCheck,
}

/// The operations as values of the specification.
pub enum HelperOpSpec {
    Dns { targets: Seq<Seq<char>>, family: Seq<char> },
    ClearDns { targets: Seq<Seq<char>> },
    Mac { guid: Seq<char>, mac_no_dash: Seq<char> },
    EnableAdapter { name: Seq<char> },
    EnableDevice { instance_id: Seq<char> },
    SetMetric { rows: Seq<Seq<char>> },
    RegisterTaskProxy,
    SelfCheck,
}

pub open spec fn strs(v: Seq<String>) -> Seq<Seq<char>> {
    v.map_values(|s: String| s@)
}

impl View for HelperOp {
    type V = HelperOpSpec;

    open spec fn view(&self) -> HelperOpSpec {
        match self {
            HelperOp::Dns { targets, family } => HelperOpSpec::Dns { targets: strs(targets@), family: family@ },
            HelperOp::ClearDns { targets } => HelperOpSpec::ClearDns { targets: strs(targets@) },
            HelperOp::Mac { guid, mac_no_dash } => HelperOpSpec::Mac { guid: guid@, mac_no_dash: mac_no_dash@ },
            HelperOp::EnableAdapter { name } => HelperOpSpec::EnableAdapter { name: name@ },
            HelperOp::EnableDevice { instance_id } => HelperOpSpec::EnableDevice { instance_id: instance_id@ },
            HelperOp::SetMetric { rows } => HelperOpSpec::SetMetric { rows: strs(rows@) },
            HelperOp::RegisterTaskProxy => HelperOpSpec::RegisterTaskProxy,
            HelperOp::SelfCheck => HelperOpSpec::SelfCheck,
        }
    }
}

// ---------------------------------------------------------------------------
// Operation and arguments
// ---------------------------------------------------------------------------

/// Scans the arguments from `i` on: `--family <v>` sets the family (a
/// missing value is an error, `None`), other `--` switches are skipped,
/// everything else is a positional argument.
pub open spec fn scan_args(args: Seq<Seq<char>>, i: int, pos: Seq<Seq<char>>, family: Seq<char>) -> Option<
    (Seq<Seq<char>>, Seq<char>),
>
    decreases args.len() - i,
{
    if i < 0 || i >= args.len() {
        Some((pos, family))
    } else if args[i] == "--family"@ {
        if i + 1 < args.len() {
            scan_args(args, i + 2, pos, args[i + 1])
        } else {
            None
        }
    } else if has_prefix(args[i], "--"@) {
        scan_args(args, i + 1, pos, family)
    } else {
        scan_args(args, i + 1, pos.push(args[i]), family)
    }
}

/// The operation named `op` with arguments `args`, or why there is none.
/// `enable_adapter`, `enable_device`, `set_metric` and `register_task`
/// exist on Windows only (`windows`); elsewhere they are unknown.
pub open spec fn spec_build_op(op: Seq<char>, args: Seq<Seq<char>>, windows: bool) -> Result<HelperOpSpec, Seq<char>> {
    match scan_args(args, 0, Seq::empty(), "both"@) {
        None => Err("--family 缺少取值"@),
        Some((pos, family)) => if op == "dns"@ {
            Ok(HelperOpSpec::Dns { targets: pos, family })
        } else if op == "clear_dns"@ {
            Ok(HelperOpSpec::ClearDns { targets: pos })
        } else if op == "mac"@ {
            if pos.len() < 1 {
                Err("helper mac 缺少 GUID"@)
            } else if pos.len() < 2 {
                Err("helper mac 缺少 MAC"@)
            } else {
                Ok(HelperOpSpec::Mac { guid: pos[0], mac_no_dash: pos[1] })
            }
        } else if windows && op == "enable_adapter"@ {
            if pos.len() < 1 {
                Err("helper enable_adapter 缺少适配器名"@)
            } else {
                Ok(HelperOpSpec::EnableAdapter { name: pos[0] })
            }
        } else if windows && op == "enable_device"@ {
            if pos.len() < 1 {
                Err("helper enable_device 缺少设备实例ID"@)
            } else {
                Ok(HelperOpSpec::EnableDevice { instance_id: pos[0] })
            }
        } else if windows && op == "set_metric"@ {
            Ok(HelperOpSpec::SetMetric { rows: pos })
        } else if windows && op == "register_task"@ {
            Ok(HelperOpSpec::RegisterTaskProxy)
        } else if op == "selfcheck"@ {
            Ok(HelperOpSpec::SelfCheck)
        } else {
            Err("未知 helper 操作: "@ + op)
        },
    }
}

/// The operations the helper knows (four of them on Windows only).
pub open spec fn is_known_helper_op(op: Seq<char>, windows: bool) -> bool {
    ||| op == "dns"@
    ||| op == "clear_dns"@
    ||| op == "mac"@
    ||| op == "selfcheck"@
    ||| (windows && op == "enable_adapter"@)
    ||| (windows && op == "enable_device"@)
    ||| (windows && op == "set_metric"@)
    ||| (windows && op == "register_task"@)
}

/// When building an operation fails: a `--family` met in the scan has no
/// value, the operation is unknown, `mac` has fewer than two positional
/// arguments, or (on Windows) `enable_adapter`/`enable_device` has none. Otherwise the
/// positional arguments and the family go where the operation takes them.
pub proof fn law_build_op_errors(op: Seq<char>, args: Seq<Seq<char>>, windows: bool)
    ensures
        spec_build_op(op, args, windows) is Err <==> match scan_args(args, 0, Seq::empty(), "both"@) {
            None => true,
            Some((pos, _)) => {
                ||| !is_known_helper_op(op, windows)
                ||| (op == "mac"@ && pos.len() < 2)
                ||| (windows && (op == "enable_adapter"@ || op == "enable_device"@) && pos.len() < 1)
            },
        },
        scan_args(args, 0, Seq::empty(), "both"@) matches Some((pos, family)) ==> {
            &&& op == "dns"@ ==> spec_build_op(op, args, windows) == Ok::<HelperOpSpec, Seq<char>>(
                HelperOpSpec::Dns { targets: pos, family },
            )
            &&& op == "clear_dns"@ ==> spec_build_op(op, args, windows) == Ok::<HelperOpSpec, Seq<char>>(
                HelperOpSpec::ClearDns { targets: pos },
            )
            &&& (op == "mac"@ && pos.len() >= 2) ==> spec_build_op(op, args, windows) == Ok::<HelperOpSpec, Seq<char>>(
                HelperOpSpec::Mac { guid: pos[0], mac_no_dash: pos[1] },
            )
        },
{
    reveal_strlit("dns");
    reveal_strlit("clear_dns");
    reveal_strlit("mac");
    reveal_strlit("enable_adapter");
    reveal_strlit("enable_device");
    reveal_strlit("set_metric");
    reveal_strlit("register_task");
    reveal_strlit("selfcheck");
    assert("mac"@[0] != "dns"@[0]);
    assert("selfcheck"@[0] != "clear_dns"@[0]);
    assert("register_task"@[0] != "enable_device"@[0]);
    assert("dns"@ != "clear_dns"@ && "dns"@ != "enable_adapter"@ && "dns"@ != "enable_device"@);
    assert("mac"@ != "clear_dns"@ && "mac"@ != "enable_adapter"@ && "mac"@ != "enable_device"@);
    assert("clear_dns"@ != "enable_adapter"@ && "clear_dns"@ != "enable_device"@);
    assert("enable_adapter"@[7] != "enable_device"@[7]);
}

pub open spec fn op_result_view(r: Result<HelperOp, String>) -> Result<HelperOpSpec, Seq<char>> {
    match r {
        Ok(op) => Ok(op@),
        Err(e) => Err(e@),
    }
}

/// Scans `args` as `scan_args` does.
fn scan_arguments(args: &Vec<String>) -> (r: Option<(Vec<String>, String)>)
    ensures
        match scan_args(strs(args@), 0, Seq::empty(), "both"@) {
            None => r is None,
            Some((pos, family)) => r matches Some(x) && strs(x.0@) == pos && x.1@ == family,
        },
{
    let mut positional: Vec<String> = Vec::new();
    let mut family = to_owned_string("both");
    let mut i: usize = 0;
    let ghost a = strs(args@);
    assert(strs(positional@) =~= Seq::<Seq<char>>::empty());
    while i < args.len()
        invariant
            a == strs(args@),
            i <= args.len() + 1,
            scan_args(a, 0, Seq::empty(), "both"@) == scan_args(a, i as int, strs(positional@), family@),
        decreases args.len() + 1 - i,
    {
        let arg = args[i].as_str();
        assert(a[i as int] == arg@);
        if str_eq(arg, "--family") {
            if i + 1 < args.len() {
                assert(a[i + 1] == args@[i + 1]@);
                family = args[i + 1].clone();
                i = i + 2;
            } else {
                return None;
            }
        } else if starts_with(arg, "--") {
            i = i + 1;
        } else {
            let ghost before = positional@;
            positional.push(args[i].clone());
            assert(strs(positional@) =~= strs(before).push(arg@));
            i = i + 1;
        }
    }
    Some((positional, family))
}

/// Builds the operation `op` from its arguments (positional arguments and
/// the `--family` switch, in any order); the same for the command line and
/// for the scheduled-task requests. `windows` says whether the helper runs
/// on Windows, where four more operations exist.
pub fn build_op_from_args(op: &str, args: &Vec<String>, windows: bool) -> (r: Result<HelperOp, String>)
    ensures
        op_result_view(r) == spec_build_op(op@, strs(args@), windows),
{
    let (positional, family) = match scan_arguments(args) {
        None => return Err(to_owned_string("--family 缺少取值")),
        Some(x) => x,
    };
    let ghost pos = strs(positional@);
    if str_eq(op, "dns") {
        Ok(HelperOp::Dns { targets: positional, family })
    } else if str_eq(op, "clear_dns") {
        Ok(HelperOp::ClearDns { targets: positional })
    } else if str_eq(op, "mac") {
        if positional.len() < 1 {
            Err(to_owned_string("helper mac 缺少 GUID"))
        } else if positional.len() < 2 {
            Err(to_owned_string("helper mac 缺少 MAC"))
        } else {
            assert(pos[0] == positional@[0]@);
            assert(pos[1] == positional@[1]@);
            Ok(HelperOp::Mac { guid: positional[0].clone(), mac_no_dash: positional[1].clone() })
        }
    } else if windows && str_eq(op, "enable_adapter") {
        if positional.len() < 1 {
            Err(to_owned_string("helper enable_adapter 缺少适配器名"))
        } else {
            assert(pos[0] == positional@[0]@);
            Ok(HelperOp::EnableAdapter { name: positional[0].clone() })
        }
    } else if windows && str_eq(op, "enable_device") {
        if positional.len() < 1 {
            Err(to_owned_string("helper enable_device 缺少设备实例ID"))
        } else {
            assert(pos[0] == positional@[0]@);
            Ok(HelperOp::EnableDevice { instance_id: positional[0].clone() })
        }
    } else if windows && str_eq(op, "set_metric") {
        Ok(HelperOp::SetMetric { rows: positional })
    } else if windows && str_eq(op, "register_task") {
        Ok(HelperOp::RegisterTaskProxy)
    } else if str_eq(op, "selfcheck") {
        Ok(HelperOp::SelfCheck)
    } else {
        Err(concat2("未知 helper 操作: ", op))
    }
}

/// Scans what follows the operation: `--result <name>` sets the result
/// file (the last one counts; a missing value is an error, `None`);
/// everything else goes to the operation.
pub open spec fn scan_result(args: Seq<Seq<char>>, i: int, rest: Seq<Seq<char>>, result: Option<Seq<char>>) -> Option<
    (Seq<Seq<char>>, Option<Seq<char>>),
>
    decreases args.len() - i,
{
    if i < 0 || i >= args.len() {
        Some((rest, result))
    } else if args[i] == "--result"@ {
        if i + 1 < args.len() {
            scan_result(args, i + 2, rest, Some(args[i + 1]))
        } else {
            None
        }
    } else {
        scan_result(args, i + 1, rest.push(args[i]), result)
    }
}

/// Index of the first `--helper`.
pub open spec fn is_first_helper_flag(args: Seq<Seq<char>>, p: int) -> bool {
    0 <= p < args.len() && args[p] == "--helper"@ && forall|k: int| 0 <= k < p ==> args[k] != "--helper"@
}

/// What the command line asks of the helper: nothing without `--helper`;
/// otherwise the operation that follows it, with its arguments, and the
/// result file name if one is given.
pub open spec fn spec_parse_helper_args(args: Seq<Seq<char>>, windows: bool) -> Result<
    Option<(HelperOpSpec, Option<Seq<char>>)>,
    Seq<char>,
> {
    if !exists|p: int| is_first_helper_flag(args, p) {
        Ok(None)
    } else {
        let p = choose|p: int| is_first_helper_flag(args, p);
        if p + 1 >= args.len() {
            Err("helper 缺少操作类型"@)
        } else {
            match scan_result(args, p + 2, Seq::empty(), None) {
                None => Err("--result 缺少路径"@),
                Some((rest, result)) => match spec_build_op(args[p + 1], rest, windows) {
                    Err(e) => Err(e),
                    Ok(op) => Ok(Some((op, result))),
                },
            }
        }
    }
}

pub open spec fn opt_str(o: Option<String>) -> Option<Seq<char>> {
    match o {
        Some(s) => Some(s@),
        None => None,
    }
}

pub open spec fn parsed_args_view(r: Result<Option<(HelperOp, Option<String>)>, String>) -> Result<
    Option<(HelperOpSpec, Option<Seq<char>>)>,
    Seq<char>,
> {
    match r {
        Err(e) => Err(e@),
        Ok(None) => Ok(None),
        Ok(Some((op, path))) => Ok(Some((op@, opt_str(path)))),
    }
}

fn find_helper_flag(args: &Vec<String>) -> (r: Option<usize>)
    ensures
        match r {
            Some(p) => is_first_helper_flag(strs(args@), p as int),
            None => !exists|p: int| is_first_helper_flag(strs(args@), p),
        },
{
    let ghost a = strs(args@);
    let mut i: usize = 0;
    while i < args.len()
        invariant
            a == strs(args@),
            i <= args.len(),
            forall|k: int| 0 <= k < i ==> a[k] != "--helper"@,
        decreases args.len() - i,
    {
        assert(a[i as int] == args@[i as int]@);
        if str_eq(args[i].as_str(), "--helper") {
            return Some(i);
        }
        i = i + 1;
    }
    None
}

fn scan_result_args(args: &Vec<String>, from: usize) -> (r: Option<(Vec<String>, Option<String>)>)
    ensures
        match scan_result(strs(args@), from as int, Seq::empty(), None) {
            None => r is None,
            Some((rest, result)) => r matches Some(x) && strs(x.0@) == rest && opt_str(x.1) == result,
        },
{
    let ghost a = strs(args@);
    let mut rest: Vec<String> = Vec::new();
    let mut result: Option<String> = None;
    let mut i: usize = from;
    assert(strs(rest@) =~= Seq::<Seq<char>>::empty());
    if i > args.len() {
        return Some((rest, result));
    }
    while i < args.len()
        invariant
            a == strs(args@),
            i <= args.len() + 1,
            scan_result(a, from as int, Seq::empty(), None) == scan_result(a, i as int, strs(rest@), opt_str(result)),
        decreases args.len() + 1 - i,
    {
        assert(a[i as int] == args@[i as int]@);
        if str_eq(args[i].as_str(), "--result") {
            if i + 1 < args.len() {
                assert(a[i + 1] == args@[i + 1]@);
                result = Some(args[i + 1].clone());
                i = i + 2;
            } else {
                return None;
            }
        } else {
            let ghost before = rest@;
            rest.push(args[i].clone());
            assert(strs(rest@) =~= strs(before).push(a[i as int]));
            i = i + 1;
        }
    }
    Some((rest, result))
}

/// Reads `--helper <op> [arguments...] [--family <v>] --result <name>`.
/// Without `--helper`, `Ok(None)`; with it but invalid arguments, an error
/// (the caller must then not start the normal application). `windows` as
/// for `build_op_from_args`.
pub fn parse_helper_args(args: &Vec<String>, windows: bool) -> (r: Result<Option<(HelperOp, Option<String>)>, String>)
    ensures
        parsed_args_view(r) == spec_parse_helper_args(strs(args@), windows),
{
    let ghost a = strs(args@);
    let pos = match find_helper_flag(args) {
        None => return Ok(None),
        Some(p) => p,
    };
    proof {
        lemma_first_helper_flag_unique(a, pos as int);
    }
    assert(pos < args.len());
    if pos + 1 >= args.len() {
        return Err(to_owned_string("helper 缺少操作类型"));
    }
    assert(a[pos + 1] == args@[pos + 1]@);
    let op = args[pos + 1].as_str();
    let (rest, result_path) = match scan_result_args(args, pos + 2) {
        None => return Err(to_owned_string("--result 缺少路径")),
        Some(x) => x,
    };
    match build_op_from_args(op, &rest, windows) {
        Err(e) => Err(e),
        Ok(parsed) => Ok(Some((parsed, result_path))),
    }
}

proof fn lemma_first_helper_flag_unique(a: Seq<Seq<char>>, p: int)
    requires
        is_first_helper_flag(a, p),
    ensures
        (choose|q: int| is_first_helper_flag(a, q)) == p,
{
    let q = choose|q: int| is_first_helper_flag(a, q);
    if q < p {
        assert(a[q] != "--helper"@);
    } else if p < q {
        assert(a[p] != "--helper"@);
    }
}

// ---------------------------------------------------------------------------
// Result file
// ---------------------------------------------------------------------------

/// A result file: a plain name inside the helper's results directory.
pub struct ResultPath {
    pub file_name: String,
}

pub open spec fn is_result_name_char(c: char) -> bool {
    is_ascii_alnum(c) || c == '-' || c == '_' || c == '.'
}

/// A plain file name: 1 to 128 bytes of letters, digits, `-`, `_` and
/// `.`, no `..`, not starting with `.` (and so no separator or drive).
pub open spec fn is_plain_result_name(n: Seq<char>) -> bool {
    &&& n.len() > 0
    &&& utf8_len(n) <= 128
    &&& lacks_char(n, '/')
    &&& lacks_char(n, '\\')
    &&& !has_substr(n, ".."@)
    &&& n[0] != '.'
    &&& forall|i: int| 0 <= i < n.len() ==> is_result_name_char(#[trigger] n[i])
}

/// Which result names are accepted, in bytes: 1 to 128 bytes, each an
/// ASCII letter or digit, `-`, `_` or `.`, with no `..` and no leading `.`
/// (so no `/` or `\\` either): the helper never writes outside its
/// results directory.
pub proof fn law_result_names(n: Seq<char>)
    ensures
        is_plain_result_name(n) <==> {
            &&& 1 <= n.len() <= 128
            &&& forall|i: int| 0 <= i < n.len() ==> is_result_name_char(#[trigger] n[i])
            &&& !has_substr(n, ".."@)
            &&& n[0] != '.'
        },
        is_plain_result_name(n) ==> lacks_char(n, '/') && lacks_char(n, '\\'),
{
    if forall|i: int| 0 <= i < n.len() ==> is_result_name_char(#[trigger] n[i]) {
        assert forall|i: int| 0 <= i < n.len() implies (#[trigger] n[i] as u32) < 0x80 by {
            assert(is_result_name_char(n[i]));
        }
        crate::text::lemma_utf8_len_ascii(n);
        assert forall|i: int| 0 <= i < n.len() implies #[trigger] n[i] != '/' && n[i] != '\\' by {
            assert(is_result_name_char(n[i]));
        }
    }
}

fn all_result_name_chars(v: &Vec<char>) -> (r: bool)
    ensures
        r == forall|i: int| 0 <= i < v.len() ==> is_result_name_char(#[trigger] v@[i]),
{
    let mut i: usize = 0;
    while i < v.len()
        invariant
            i <= v.len(),
            forall|k: int| 0 <= k < i ==> is_result_name_char(#[trigger] v@[k]),
        decreases v.len() - i,
    {
        let c = v[i];
        if !(char_is_ascii_alnum(c) || c == '-' || c == '_' || c == '.') {
            return false;
        }
        i = i + 1;
    }
    true
}

/// Checks a result file name and places it in the results directory; any
/// path, `..` or hidden name is refused, so the elevated helper never
/// writes outside that directory.
pub fn resolve_result_path(name: &str) -> (r: Result<ResultPath, String>)
    ensures
        is_plain_result_name(name@) ==> (r matches Ok(p) && p.file_name@ == name@),
        !is_plain_result_name(name@) ==> (r matches Err(e) && e@ == "结果文件名非法: "@ + debug_str(
            name@,
        ) + "（要求纯文件名）"@),
{
    let v = chars_of(name);
    let ok = v.len() > 0 && !utf8_len_exceeds(&v, 128) && !crate::text::contains_char(name, '/')
        && !crate::text::contains_char(name, '\\') && !crate::text::contains(name, "..") && v[0] != '.'
        && all_result_name_chars(&v);
    if ok {
        Ok(ResultPath { file_name: to_owned_string(name) })
    } else {
        let q = debug_quote(name);
        Err(concat3("结果文件名非法: ", q.as_str(), "（要求纯文件名）"))
    }
}

// ---------------------------------------------------------------------------
// Metric rows
// ---------------------------------------------------------------------------

/// A decoded metric row: interface GUID, address family (2 = IPv4,
/// 23 = IPv6), automatic metric, metric.
pub open spec fn spec_decode_metric_row(row: Seq<char>) -> Result<(Seq<char>, u16, bool, nat), Seq<char>> {
    let parts = split_on(row, ':');
    if parts.len() != 4 {
        Err("set_metric 条目格式非法: "@ + debug_str(row) + "（要求 guid:family:automatic:metric）"@)
    } else if parts[1] != "2"@ && parts[1] != "23"@ {
        Err("set_metric 协议栈非法: "@ + debug_str(parts[1]) + "（要求 2=IPv4 / 23=IPv6）"@)
    } else if parts[2] != "1"@ && parts[2] != "0"@ {
        Err("set_metric automatic 标志非法: "@ + debug_str(parts[2]) + "（要求 0 或 1）"@)
    } else if !parses_unsigned(parts[3], u32::MAX as nat) {
        Err("set_metric 跃点值非法: "@ + debug_str(parts[3]) + " - "@ + u32_parse_error(parts[3]))
    } else {
        Ok(
            (
                parts[0],
                if parts[1] == "2"@ {
                    2u16
                } else {
                    23u16
                },
                parts[2] == "1"@,
                digits_value(unsigned_digits(parts[3])),
            ),
        )
    }
}

/// The row that `format!("{}:{}:{}:{}", guid, family, automatic as u8, metric)`
/// writes.
pub open spec fn metric_row_text(guid: Seq<char>, family: u16, automatic: bool, metric: u32) -> Seq<char> {
    guid + seq![':'] + decimal(family as nat) + seq![':'] + seq![if automatic { '1' } else { '0' }] + seq![':']
        + decimal(metric as nat)
}

/// A row written from a GUID without `:`, family 2 or 23, the automatic
/// flag and a metric decodes back to those four values.
pub proof fn law_metric_row_round_trip(guid: Seq<char>, family: u16, automatic: bool, metric: u32)
    requires
        lacks_char(guid, ':'),
        family == 2 || family == 23,
    ensures
        spec_decode_metric_row(metric_row_text(guid, family, automatic, metric)) == Ok::<
            (Seq<char>, u16, bool, nat),
            Seq<char>,
        >((guid, family, automatic, metric as nat)),
{
    let p1 = decimal(family as nat);
    let p2 = seq![if automatic { '1' } else { '0' }];
    let p3 = decimal(metric as nat);
    crate::text::lemma_decimal_digits(family as nat);
    crate::text::lemma_decimal_digits(metric as nat);
    assert(lacks_char(p1, ':')) by {
        assert forall|i: int| 0 <= i < p1.len() implies #[trigger] p1[i] != ':' by {
            assert(crate::text::is_ascii_digit(p1[i]));
        }
    }
    assert(lacks_char(p3, ':')) by {
        assert forall|i: int| 0 <= i < p3.len() implies #[trigger] p3[i] != ':' by {
            assert(crate::text::is_ascii_digit(p3[i]));
        }
    }
    crate::text::lemma_split_on_lacking(guid, ':');
    crate::text::lemma_split_on_lacking(p1, ':');
    crate::text::lemma_split_on_lacking(p2, ':');
    crate::text::lemma_split_on_lacking(p3, ':');
    let x1 = guid + seq![':'] + p1;
    let x2 = x1 + seq![':'] + p2;
    let row = x2 + seq![':'] + p3;
    crate::text::lemma_split_on_join(guid, ':', p1);
    crate::text::lemma_split_on_join(x1, ':', p2);
    crate::text::lemma_split_on_join(x2, ':', p3);
    assert(row == metric_row_text(guid, family, automatic, metric));
    let parts = split_on(row, ':');
    assert(parts =~= seq![guid, p1, p2, p3]);
    reveal_strlit("2");
    reveal_strlit("23");
    reveal_strlit("1");
    reveal_strlit("0");
    if family == 2 {
        assert(p1 =~= "2"@);
    } else {
        assert(decimal(2) =~= "2"@);
        assert(p1 =~= "23"@);
        assert(p1 != "2"@);
    }
    if automatic {
        assert(p2 =~= "1"@);
    } else {
        assert(p2 =~= "0"@);
        assert(p2 != "1"@);
    }
    assert(unsigned_digits(p3) == p3);
}

pub open spec fn metric_row_view(r: Result<(String, u16, bool, u32), String>) -> Result<
    (Seq<char>, u16, bool, nat),
    Seq<char>,
> {
    match r {
        Ok((g, f, a, m)) => Ok((g@, f, a, m as nat)),
        Err(e) => Err(e@),
    }
}

/// Decodes a `guid:family:automatic:metric` row (see
/// `spec_decode_metric_row`).
pub fn decode_set_metric_row(row: &str) -> (r: Result<(String, u16, bool, u32), String>)
    ensures
        metric_row_view(r) == spec_decode_metric_row(row@),
{
    let v = chars_of(row);
    let parts = split_chars(&v, ':');
    let ghost sp = split_on(row@, ':');
    if parts.len() != 4 {
        let q = debug_quote(row);
        return Err(concat3("set_metric 条目格式非法: ", q.as_str(), "（要求 guid:family:automatic:metric）"));
    }
    assert(parts@[0]@ == sp[0]);
    assert(parts@[1]@ == sp[1]);
    assert(parts@[2]@ == sp[2]);
    assert(parts@[3]@ == sp[3]);
    let guid = string_from_chars(&parts[0], 0, parts[0].len());
    let fam = string_from_chars(&parts[1], 0, parts[1].len());
    let auto = string_from_chars(&parts[2], 0, parts[2].len());
    let met = string_from_chars(&parts[3], 0, parts[3].len());
    assert(guid@ =~= sp[0]);
    assert(fam@ =~= sp[1]);
    assert(auto@ =~= sp[2]);
    assert(met@ =~= sp[3]);
    let family: u16 = if str_eq(fam.as_str(), "2") {
        2
    } else if str_eq(fam.as_str(), "23") {
        23
    } else {
        let q = debug_quote(fam.as_str());
        return Err(concat3("set_metric 协议栈非法: ", q.as_str(), "（要求 2=IPv4 / 23=IPv6）"));
    };
    let automatic = if str_eq(auto.as_str(), "1") {
        true
    } else if str_eq(auto.as_str(), "0") {
        false
    } else {
        let q = debug_quote(auto.as_str());
        return Err(concat3("set_metric automatic 标志非法: ", q.as_str(), "（要求 0 或 1）"));
    };
    match parse_u32(met.as_str()) {
        Ok(metric) => Ok((guid, family, automatic, metric)),
        Err(e) => {
            let q = debug_quote(met.as_str());
            let head = concat3("set_metric 跃点值非法: ", q.as_str(), " - ");
            Err(concat2(head.as_str(), e.as_str()))
        },
    }
}


// ---------------------------------------------------------------------------
// The MAC service's requests
// ---------------------------------------------------------------------------

/// The characters of `s` without `:` and `-`.
pub open spec fn mac_clean(s: Seq<char>) -> Seq<char>
    decreases s.len(),
{
    if s.len() == 0 {
        Seq::empty()
    } else if s.last() == ':' || s.last() == '-' {
        mac_clean(s.drop_last())
    } else {
        mac_clean(s.drop_last()).push(s.last())
    }
}

/// `s` with a `-` before every character at an even position other than
/// the first (`AABBCC` becomes `AA-BB-CC`).
pub open spec fn dashed_pairs(s: Seq<char>) -> Seq<char>
    decreases s.len(),
{
    if s.len() == 0 {
        Seq::empty()
    } else if s.len() - 1 > 0 && (s.len() - 1) % 2 == 0 {
        dashed_pairs(s.drop_last()).push('-').push(s.last())
    } else {
        dashed_pairs(s.drop_last()).push(s.last())
    }
}

/// A MAC address in the dashed form the registry takes: separators
/// dropped, then a dash between every two characters.
pub open spec fn spec_mac_with_dashes(mac: Seq<char>) -> Seq<char> {
    dashed_pairs(mac_clean(mac))
}

/// The dashed form of a MAC address (see `spec_mac_with_dashes`).
pub fn mac_with_dashes(mac: &str) -> (r: String)
    ensures
        r@ == spec_mac_with_dashes(mac@),
{
    let v = chars_of(mac);
    let mut clean: Vec<char> = Vec::new();
    let mut i: usize = 0;
    while i < v.len()
        invariant
            i <= v.len(),
            v@ == mac@,
            clean@ == mac_clean(v@.take(i as int)),
        decreases v.len() - i,
    {
        assert(v@.take(i + 1).drop_last() =~= v@.take(i as int));
        let c = v[i];
        if c != ':' && c != '-' {
            clean.push(c);
        }
        i = i + 1;
    }
    assert(v@.take(v.len() as int) =~= v@);
    let mut out: Vec<char> = Vec::new();
    let mut j: usize = 0;
    while j < clean.len()
        invariant
            j <= clean.len(),
            out@ == dashed_pairs(clean@.take(j as int)),
        decreases clean.len() - j,
    {
        assert(clean@.take(j + 1).drop_last() =~= clean@.take(j as int));
        if j > 0 && j % 2 == 0 {
            out.push('-');
        }
        out.push(clean[j]);
        j = j + 1;
    }
    assert(clean@.take(clean.len() as int) =~= clean@);
    assert(out@.subrange(0, out.len() as int) =~= out@);
    string_from_chars(&out, 0, out.len())
}

pub proof fn lemma_clean_has_no_separators(s: Seq<char>)
    ensures
        forall|i: int| 0 <= i < mac_clean(s).len() ==> #[trigger] mac_clean(s)[i] != ':' && mac_clean(s)[i] != '-',
    decreases s.len(),
{
    if s.len() > 0 {
        let p = s.drop_last();
        lemma_clean_has_no_separators(p);
        if !(s.last() == ':' || s.last() == '-') {
            let q = mac_clean(p);
            assert(mac_clean(s) == q.push(s.last()));
            assert forall|i: int| 0 <= i < q.push(s.last()).len() implies #[trigger] q.push(s.last())[i] != ':'
                && q.push(s.last())[i] != '-' by {
                if i < q.len() {
                    assert(q.push(s.last())[i] == q[i]);
                }
            }
        }
    }
}

pub proof fn lemma_clean_of_dashed(s: Seq<char>)
    requires
        forall|i: int| 0 <= i < s.len() ==> #[trigger] s[i] != ':' && s[i] != '-',
    ensures
        mac_clean(dashed_pairs(s)) == s,
    decreases s.len(),
{
    if s.len() > 0 {
        let p = s.drop_last();
        assert forall|i: int| 0 <= i < p.len() implies #[trigger] p[i] != ':' && p[i] != '-' by {
            assert(p[i] == s[i]);
        }
        lemma_clean_of_dashed(p);
        let d = dashed_pairs(p);
        let c = s.last();
        assert(s[s.len() - 1] == c);
        assert(c != ':' && c != '-');
        if s.len() - 1 > 0 && (s.len() - 1) % 2 == 0 {
            let x = d.push('-');
            assert(dashed_pairs(s) == x.push(c));
            assert(x.push(c).drop_last() =~= x);
            assert(x.push(c).last() == c);
            assert(mac_clean(x.push(c)) == mac_clean(x).push(c));
            assert(x.drop_last() =~= d);
            assert(x.last() == '-');
            assert(mac_clean(x) == mac_clean(d));
        } else {
            assert(dashed_pairs(s) == d.push(c));
            assert(d.push(c).drop_last() =~= d);
            assert(d.push(c).last() == c);
            assert(mac_clean(d.push(c)) == mac_clean(d).push(c));
        }
        assert(p.push(c) =~= s);
    }
}

/// The dashed form only adds dashes: dropping the separators again gives
/// the characters of the address, in order.
pub proof fn law_dashes_only_add_separators(mac: Seq<char>)
    ensures
        mac_clean(spec_mac_with_dashes(mac)) == mac_clean(mac),
{
    lemma_clean_has_no_separators(mac);
    lemma_clean_of_dashed(mac_clean(mac));
}

/// A request to the MAC service.
#[derive(Debug, PartialEq, Eq, Structural)]
pub enum PipeCommand {
    Ping,
    SetMac,
    Unknown,
}

/// Which request a command name is.
pub fn pipe_command(cmd: &str) -> (r: PipeCommand)
    ensures
        r == (if cmd@ == "ping"@ {
            PipeCommand::Ping
        } else if cmd@ == "set-mac"@ {
            PipeCommand::SetMac
        } else {
            PipeCommand::Unknown
        }),
{
    if str_eq(cmd, "ping") {
        PipeCommand::Ping
    } else if str_eq(cmd, "set-mac") {
        PipeCommand::SetMac
    } else {
        PipeCommand::Unknown
    }
}

/// The answer to an unknown command.
pub fn unknown_command_message(cmd: &str) -> (r: String)
    ensures
        r@ == "未知命令: "@ + cmd@,
{
    concat2("未知命令: ", cmd)
}

/// The answer after a MAC change, by whether the address then changed.
pub fn set_mac_message(ip_changed: bool) -> (r: String)
    ensures
        r@ == (if ip_changed {
            "MAC已修改,IP已更新"@
        } else {
            "MAC已修改但IP未变更,可能网卡驱动不支持MAC伪装"@
        }),
{
    if ip_changed {
        to_owned_string("MAC已修改,IP已更新")
    } else {
        to_owned_string("MAC已修改但IP未变更,可能网卡驱动不支持MAC伪装")
    }
}

} // verus!
