//! The application's error type and its messages.
use vstd::prelude::*;
use crate::gguf::format::GgufError;
use crate::text::{append_decimal, decimal};

verus! {

/// Errors reported to the front end.
pub enum AppError {
    /// An I/O failure, with the I/O error's text
    Io(String),
    /// A (de)serialization failure, with its text
    Serde(String),
    /// A desktop-shell failure, with its text
    Tauri(String),
    Config(String),
    GgufParse(String),
    Process(String),
    PortInUse { port: u16 },
    NotRunning,
    AlreadyRunning,
    Other(String),
}

/// The text shown for an error.
pub open spec fn error_text(e: AppError) -> Seq<char> {
    match e {
        AppError::Io(m) => "IO 错误: "@ + m@,
        AppError::Serde(m) => "序列化错误: "@ + m@,
        AppError::Tauri(m) => "Tauri 错误: "@ + m@,
        AppError::Config(m) => "配置错误: "@ + m@,
        AppError::GgufParse(m) => "GGUF 解析错误: "@ + m@,
        AppError::Process(m) => "进程错误: "@ + m@,
        AppError::PortInUse { port } => "端口 "@ + decimal(port as nat) + " 已被占用"@,
        AppError::NotRunning => "服务未运行"@,
        AppError::AlreadyRunning => "服务已在运行"@,
        AppError::Other(m) => m@,
    }
}

fn prefixed(prefix: &str, m: &String) -> (s: String)
    ensures
        s@ == prefix@ + m@,
{
    let mut s = String::from_str(prefix);
    s.append(m.as_str());
    s
}

impl AppError {
    /// The text shown for this error (what its `Display` prints).
    pub fn message(&self) -> (s: String)
        ensures
            s@ == error_text(*self),
    {
        match self {
            AppError::Io(m) => prefixed("IO 错误: ", m),
            AppError::Serde(m) => prefixed("序列化错误: ", m),
            AppError::Tauri(m) => prefixed("Tauri 错误: ", m),
            AppError::Config(m) => prefixed("配置错误: ", m),
            AppError::GgufParse(m) => prefixed("GGUF 解析错误: ", m),
            AppError::Process(m) => prefixed("进程错误: ", m),
            AppError::PortInUse { port } => {
                let mut s = String::from_str("端口 ");
                append_decimal(&mut s, *port as u64);
                s.append(" 已被占用");
                s
            },
            AppError::NotRunning => String::from_str("服务未运行"),
            AppError::AlreadyRunning => String::from_str("服务已在运行"),
            AppError::Other(m) => m.clone(),
        }
    }
}

/// An upper-case hexadecimal digit.
pub open spec fn hex_digit(d: nat) -> char {
    if d < 10 {
        ((d + 48) as u32) as char
    } else {
        ((d + 55) as u32) as char
    }
}

/// Eight upper-case hexadecimal digits of `m` (what `{:08X}` prints).
pub open spec fn hex8(m: u32) -> Seq<char> {
    seq![
        hex_digit((m / 0x10000000) as nat % 16), hex_digit((m / 0x1000000) as nat % 16),
        hex_digit((m / 0x100000) as nat % 16), hex_digit((m / 0x10000) as nat % 16),
        hex_digit((m / 0x1000) as nat % 16), hex_digit((m / 0x100) as nat % 16),
        hex_digit((m / 0x10) as nat % 16), hex_digit(m as nat % 16),
    ]
}

fn push_hex(s: &mut String, d: u32)
    requires
        d < 16,
    ensures
        final(s)@ == old(s)@.push(hex_digit(d as nat)),
{
    let lit: &str = if d == 0 { "0" } else if d == 1 { "1" } else if d == 2 { "2" } else if d == 3 { "3" }
        else if d == 4 { "4" } else if d == 5 { "5" } else if d == 6 { "6" } else if d == 7 { "7" }
        else if d == 8 { "8" } else if d == 9 { "9" } else if d == 10 { "A" } else if d == 11 { "B" }
        else if d == 12 { "C" } else if d == 13 { "D" } else if d == 14 { "E" } else { "F" };
    proof {
        reveal_strlit("0"); reveal_strlit("1"); reveal_strlit("2"); reveal_strlit("3");
        reveal_strlit("4"); reveal_strlit("5"); reveal_strlit("6"); reveal_strlit("7");
        reveal_strlit("8"); reveal_strlit("9"); reveal_strlit("A"); reveal_strlit("B");
        reveal_strlit("C"); reveal_strlit("D"); reveal_strlit("E"); reveal_strlit("F");
    }
    assert(lit@ =~= seq![hex_digit(d as nat)]);
    s.append(lit);
}

/// The application error for a failed header read: I/O failures keep their
/// message; a wrong magic is a GGUF parse error naming the magic read; an
/// unknown type code is an I/O (invalid data) error naming the code.
pub fn gguf_failure(e: GgufError) -> (r: AppError)
    requires
        !(e is SizeOverflow),
    ensures
        match e {
            GgufError::Io(m) => r == AppError::Io(m),
            GgufError::NotGguf(m) => r matches AppError::GgufParse(t)
                && t@ == "不是 GGUF 文件 (magic: 0x"@ + hex8(m) + ")"@,
            GgufError::UnknownValueType(c) => r matches AppError::Io(t)
                && t@ == "Unknown GGUF value type: "@ + decimal(c as nat),
            GgufError::UnknownArrayType(c) => r matches AppError::Io(t)
                && t@ == "Unknown array element type: "@ + decimal(c as nat),
            GgufError::SizeOverflow => false,
        },
{
    match e {
        GgufError::Io(m) => AppError::Io(m),
        GgufError::NotGguf(m) => {
            let mut s = String::from_str("不是 GGUF 文件 (magic: 0x");
            push_hex(&mut s, (m / 0x10000000) % 16);
            push_hex(&mut s, (m / 0x1000000) % 16);
            push_hex(&mut s, (m / 0x100000) % 16);
            push_hex(&mut s, (m / 0x10000) % 16);
            push_hex(&mut s, (m / 0x1000) % 16);
            push_hex(&mut s, (m / 0x100) % 16);
            push_hex(&mut s, (m / 0x10) % 16);
            push_hex(&mut s, m % 16);
            s.append(")");
            assert(s@ =~= "不是 GGUF 文件 (magic: 0x"@ + hex8(m) + ")"@);
            AppError::GgufParse(s)
        },
        GgufError::UnknownValueType(c) => {
            let mut s = String::from_str("Unknown GGUF value type: ");
            append_decimal(&mut s, c as u64);
            AppError::Io(s)
        },
        GgufError::UnknownArrayType(c) => {
            let mut s = String::from_str("Unknown array element type: ");
            append_decimal(&mut s, c as u64);
            AppError::Io(s)
        },
        GgufError::SizeOverflow => AppError::Other(String::new()),
    }
}

} // verus!
