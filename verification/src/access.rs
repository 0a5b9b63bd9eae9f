//! What the host reads from and writes to files on behalf of the editor.

use vstd::prelude::*;
use vstd::string::StringExecFns;

verus! {

/// The content of a file.
#[derive(Debug)]
pub enum FileContent {
    /// Text.
    Text(String),
    /// Bytes.
    Data(Vec<u8>),
}

/// Why a file could not be reached.
#[derive(Debug)]
pub enum AccessError {
    /// No file lies at the path.
    NotFound(String),
    /// The editor was not granted the file at the path.
    AccessDenied(String),
}

impl AccessError {
    /// The error in words.
    pub open spec fn text(&self) -> Seq<char> {
        match self {
            AccessError::NotFound(path) => "Could not find file at "@ + path@ + "."@,
            AccessError::AccessDenied(path) => "Access to file "@ + path@ + " is denied."@,
        }
    }

    /// The error in words.
    pub fn message(&self) -> (message: String)
        ensures
            message@ == self.text(),
    {
        match self {
            AccessError::NotFound(path) => {
                let mut message = String::from_str("Could not find file at ");
                message.append(path.as_str());
                message.append(".");
                message
            },
            AccessError::AccessDenied(path) => {
                let mut message = String::from_str("Access to file ");
                message.append(path.as_str());
                message.append(" is denied.");
                message
            },
        }
    }
}

/// The data of a file that was read.
#[derive(Debug)]
pub enum AccessFileData {
    /// Bytes.
    Binary(Vec<u8>),
    /// Text.
    Text(String),
}

/// Which files are read as bytes and which as text.
#[derive(Debug)]
pub enum AccessSelection {
    /// Every file is text.
    AllText,
    /// Every file is bytes.
    AllBinary,
    /// A file is bytes where its extension is among these.
    Binary(Vec<String>),
    /// A file is text where its extension is among these, and bytes where it
    /// has another extension.
    Text(Vec<String>),
}

/// Whether `extension` is among `values`.
pub open spec fn listed(values: Seq<String>, extension: Seq<char>) -> bool {
    exists|i: int| 0 <= i < values.len() && (#[trigger] values[i])@ == extension
}

/// Whether `extension` is among `values`.
pub fn is_listed(values: &Vec<String>, extension: &str) -> (found: bool)
    ensures
        found == listed(values@, extension@),
{
    let wanted = String::from_str(extension);
    let mut index: usize = 0;
    while index < values.len()
        invariant
            index <= values@.len(),
            wanted@ == extension@,
            forall|i: int| 0 <= i < index ==> (#[trigger] values@[i])@ != extension@,
        decreases values@.len() - index,
    {
        if values[index] == wanted {
            return true;
        }
        index = index + 1;
    }
    false
}

impl AccessSelection {
    /// Whether a file with this extension is read as bytes. A file without
    /// an extension is bytes only where every file is.
    pub open spec fn binary(&self, extension: Option<Seq<char>>) -> bool {
        match self {
            AccessSelection::AllText => false,
            AccessSelection::AllBinary => true,
            AccessSelection::Binary(values) => extension matches Some(name) && listed(values@, name),
            AccessSelection::Text(values) => extension matches Some(name) && !listed(values@, name),
        }
    }

    /// Whether a file with this extension is read as bytes.
    pub fn is_binary(&self, extension: &Option<&str>) -> (binary: bool)
        ensures
            binary == self.binary(
                match extension {
                    Some(name) => Some(name@),
                    None => None,
                },
            ),
    {
        match self {
            AccessSelection::AllText => false,
            AccessSelection::AllBinary => true,
            AccessSelection::Binary(values) => match extension {
                Some(name) => is_listed(values, name),
                None => false,
            },
            AccessSelection::Text(values) => match extension {
                Some(name) => !is_listed(values, name),
                None => false,
            },
        }
    }
}

/// A file that was read.
#[derive(Debug)]
pub struct AccessFile<Data> {
    /// The path of the file.
    pub path: String,
    /// The name of the file, without its extension.
    pub name: Option<String>,
    /// The extension of the file.
    pub extension: Option<String>,
    /// What was read.
    pub data: Data,
}

/// A filter of a file dialog.
#[derive(Debug)]
pub struct AccessFilter {
    /// The name of the filter.
    pub name: String,
    /// The extensions that pass the filter.
    pub extensions: Vec<String>,
}

/// A file that changed on disk.
#[derive(Debug)]
pub struct AccessModify {
    /// The path of the file.
    pub path: String,
    /// What the file holds now.
    pub data: AccessFileData,
}

} // verus!
