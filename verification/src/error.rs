//! The library's error type and its JSON-RPC 2.0 error codes.
use vstd::prelude::*;

use crate::text::{append_chars, append_str, string_from_chars, str_chars};

verus! {

/// Business and infrastructure errors. The wrapped text is the detail
/// message (for `Io`, `Json` and `Other`: the underlying error's text).
#[derive(Debug, Clone, PartialEq, Eq)]
pub enum CoreError {
    /// Invalid argument.
    InvalidArgument(String),
    /// Resource not found.
    NotFound(String),
    /// Precondition failed (for example an invalid configuration).
    FailedPrecondition(String),
    /// Unknown JSON-RPC method.
    MethodNotFound(String),
    /// Internal error.
    Internal(String),
    /// I/O error.
    Io(String),
    /// JSON error.
    Json(String),
    /// Any other error.
    Other(String),
}

/// The JSON-RPC 2.0 code of each error kind.
pub open spec fn rpc_code_of(e: CoreError) -> int {
    match e {
        CoreError::InvalidArgument(_) => -32602,
        CoreError::NotFound(_) => -32004,
        CoreError::FailedPrecondition(_) => -32002,
        CoreError::MethodNotFound(_) => -32601,
        _ => -32603,
    }
}

/// The label put in front of the detail message of each error kind.
pub open spec fn message_prefix(e: CoreError) -> Seq<char> {
    match e {
        CoreError::InvalidArgument(_) => "无效参数: "@,
        CoreError::NotFound(_) => "未找到: "@,
        CoreError::FailedPrecondition(_) => "前置条件失败: "@,
        CoreError::MethodNotFound(_) => "未知方法: "@,
        CoreError::Internal(_) => "内部错误: "@,
        _ => Seq::empty(),
    }
}

/// The detail message carried by an error.
pub open spec fn detail_of(e: CoreError) -> Seq<char> {
    match e {
        CoreError::InvalidArgument(m) => m@,
        CoreError::NotFound(m) => m@,
        CoreError::FailedPrecondition(m) => m@,
        CoreError::MethodNotFound(m) => m@,
        CoreError::Internal(m) => m@,
        CoreError::Io(m) => m@,
        CoreError::Json(m) => m@,
        CoreError::Other(m) => m@,
    }
}

impl CoreError {
    /// JSON-RPC 2.0 error code.
    pub fn rpc_code(&self) -> (code: i64)
        ensures
            code == rpc_code_of(*self),
    {
        match self {
            CoreError::InvalidArgument(_) => -32602,
            CoreError::NotFound(_) => -32004,
            CoreError::FailedPrecondition(_) => -32002,
            CoreError::MethodNotFound(_) => -32601,
            CoreError::Internal(_) | CoreError::Io(_) | CoreError::Json(_) | CoreError::Other(_) => {
                -32603
            },
        }
    }

    /// The human-readable text of the error: the kind's label followed by
    /// the detail (`Io`, `Json` and `Other` show the detail alone).
    pub fn to_message(&self) -> (m: String)
        ensures
            m@ == message_prefix(*self) + detail_of(*self),
    {
        let mut out: Vec<char> = Vec::new();
        let detail: &String = match self {
            CoreError::InvalidArgument(m) => {
                append_str(&mut out, "无效参数: ");
                m
            },
            CoreError::NotFound(m) => {
                append_str(&mut out, "未找到: ");
                m
            },
            CoreError::FailedPrecondition(m) => {
                append_str(&mut out, "前置条件失败: ");
                m
            },
            CoreError::MethodNotFound(m) => {
                append_str(&mut out, "未知方法: ");
                m
            },
            CoreError::Internal(m) => {
                append_str(&mut out, "内部错误: ");
                m
            },
            CoreError::Io(m) => m,
            CoreError::Json(m) => m,
            CoreError::Other(m) => m,
        };
        append_chars(&mut out, &str_chars(detail.as_str()));
        string_from_chars(out.as_slice())
    }
}

} // verus!
