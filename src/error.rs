//! The library's error type and the text each error is shown with.
use vstd::prelude::*;
use vstd::string::StringExecFns;

verus! {

/// Every failure an engine operation can report.
#[derive(Debug, Clone, PartialEq, Eq)]
pub enum AppError {
    /// A filesystem operation failed; holds the system's message.
    Io(String),
    PathNotFound(String),
    InvalidPath(String),
    ProjectExists(String),
    /// The tool failed to start, or exited unsuccessfully where that is fatal.
    EngineError(String),
    /// No binary of the named tool was found in any search location.
    ToolNotFound(String),
    BuildFailed(String),
    FileOperationFailed(String),
    SerializationError(String),
    DatabaseError(String),
}


impl AppError {
    /// The text shown for this error.
    pub open spec fn message_spec(&self) -> Seq<char> {
        match self {
            AppError::Io(m) => "IO error: "@ + m@,
            AppError::PathNotFound(m) => "Path not found: "@ + m@,
            AppError::InvalidPath(m) => "Invalid path: "@ + m@,
            AppError::ProjectExists(m) => "Project already exists: "@ + m@,
            AppError::EngineError(m) => "Engine error: "@ + m@,
            AppError::ToolNotFound(m) => "Tool not found: "@ + m@
                + ". Install it, or bundle its binary in a bin directory next to the application."@,
            AppError::BuildFailed(m) => "Build failed: "@ + m@,
            AppError::FileOperationFailed(m) => "File operation failed: "@ + m@,
            AppError::SerializationError(m) => "Serialization error: "@ + m@,
            AppError::DatabaseError(m) => "Database error: "@ + m@,
        }
    }

    /// The text shown for this error.
    pub fn message(&self) -> (r: String)
        ensures
            r@ == self.message_spec(),
    {
        let (head, m) = match self {
            AppError::Io(m) => ("IO error: ", m),
            AppError::PathNotFound(m) => ("Path not found: ", m),
            AppError::InvalidPath(m) => ("Invalid path: ", m),
            AppError::ProjectExists(m) => ("Project already exists: ", m),
            AppError::EngineError(m) => ("Engine error: ", m),
            AppError::ToolNotFound(m) => ("Tool not found: ", m),
            AppError::BuildFailed(m) => ("Build failed: ", m),
            AppError::FileOperationFailed(m) => ("File operation failed: ", m),
            AppError::SerializationError(m) => ("Serialization error: ", m),
            AppError::DatabaseError(m) => ("Database error: ", m),
        };
        let mut out = String::from_str(head);
        out.append(m.as_str());
        if let AppError::ToolNotFound(_) = self {
            out.append(
                ". Install it, or bundle its binary in a bin directory next to the application.",
            );
        }
        out
    }
}

} // verus!
