use vstd::prelude::*;

use crate::format::{name_text, Format};
use vstd::string::StringExecFns;

verus! {

/// Why a value could not be written in a target format.
pub enum EncodeError {
    /// The target format needs a mapping at the top of the document.
    UnsupportedRoot,
    /// The target format has no way to write a null.
    NullValue,
    /// The target format's serializer refused the value; its message.
    Serializer { message: String },
}

/// Everything that can go wrong in reading, converting or writing a document.
pub enum Error {
    /// A file could not be read.
    FileRead { path: String, message: String },
    /// A file could not be written.
    FileWrite { path: String, message: String },
    /// The text is not a well-formed document of the format; the parser's
    /// message.
    Parse { format: Format, source: String },
    /// A decoded document could not be carried into the value model.
    Convert { message: String },
    /// A value could not be written in the target format.
    Encode(EncodeError),
    /// No format was given and none could be inferred from the path.
    UnknownFormat { path: String },
    /// A format name is not one of the known names.
    NotRecognized { name: String },
    /// A path has no extension to infer a format from.
    NoExtension { path: String },
}

/// The message of an encode failure.
pub open spec fn encode_message(e: EncodeError) -> Seq<char> {
    match e {
        EncodeError::UnsupportedRoot => "TOML 文档的顶层必须是表"@,
        EncodeError::NullValue => "TOML 无法表示 null 值"@,
        EncodeError::Serializer { message } => message@,
    }
}

/// The message shown to people for each error.
pub open spec fn error_message(e: Error) -> Seq<char> {
    match e {
        Error::FileRead { path, message } => "无法读取文件 '"@ + path@ + "': "@ + message@,
        Error::FileWrite { path, message } => "无法写入文件 '"@ + path@ + "': "@ + message@,
        Error::Parse { format, source } => name_text(format) + " 解析失败: "@ + source@,
        Error::Convert { message } => "转换失败: "@ + message@,
        Error::Encode(k) => "转换失败: "@ + encode_message(k),
        Error::UnknownFormat { path } => "无法从文件扩展名推断格式: "@ + path@
            + "\n支持的扩展名: .json, .yaml, .yml, .toml"@,
        Error::NotRecognized { name } => "无法识别的格式: "@ + name@,
        Error::NoExtension { path } => "路径没有扩展名: "@ + path@,
    }
}

impl EncodeError {
    /// The message shown to people.
    pub fn message(&self) -> (r: String)
        ensures
            r@ == encode_message(*self),
    {
        match self {
            EncodeError::UnsupportedRoot => String::from_str(
                "TOML 文档的顶层必须是表",
            ),
            EncodeError::NullValue => String::from_str("TOML 无法表示 null 值"),
            EncodeError::Serializer { message } => message.clone(),
        }
    }
}

impl Error {
    /// The message shown to people.
    pub fn message(&self) -> (r: String)
        ensures
            r@ == error_message(*self),
    {
        match self {
            Error::FileRead { path, message } => {
                let mut r = String::from_str("无法读取文件 '");
                r.append(path.as_str());
                r.append("': ");
                r.append(message.as_str());
                r
            },
            Error::FileWrite { path, message } => {
                let mut r = String::from_str("无法写入文件 '");
                r.append(path.as_str());
                r.append("': ");
                r.append(message.as_str());
                r
            },
            Error::Parse { format, source } => {
                let mut r = String::from_str(format.name());
                r.append(" 解析失败: ");
                r.append(source.as_str());
                r
            },
            Error::Convert { message } => {
                let mut r = String::from_str("转换失败: ");
                r.append(message.as_str());
                r
            },
            Error::Encode(k) => {
                let mut r = String::from_str("转换失败: ");
                let m = k.message();
                r.append(m.as_str());
                r
            },
            Error::UnknownFormat { path } => {
                let mut r = String::from_str("无法从文件扩展名推断格式: ");
                r.append(path.as_str());
                r.append("\n支持的扩展名: .json, .yaml, .yml, .toml");
                r
            },
            Error::NotRecognized { name } => {
                let mut r = String::from_str("无法识别的格式: ");
                r.append(name.as_str());
                r
            },
            Error::NoExtension { path } => {
                let mut r = String::from_str("路径没有扩展名: ");
                r.append(path.as_str());
                r
            },
        }
    }

    /// Whether the error comes from reading or writing a file, as opposed to
    /// the content of a document.
    pub fn is_io(&self) -> (r: bool)
        ensures
            r == (*self is FileRead || *self is FileWrite),
    {
        match self {
            Error::FileRead { .. } => true,
            Error::FileWrite { .. } => true,
            _ => false,
        }
    }
}

} // verus!
