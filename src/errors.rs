//! Failures of the import pipeline.

use vstd::prelude::*;
use vstd::string::*;

verus! {

#[derive(Clone, Copy, Debug, PartialEq, Eq, Structural)]
pub enum ImportError {
    /// The file never stopped changing before the timeout.
    StabilityTimeout,
    /// The archive could not be read as a zip container.
    ArchiveRead,
    /// No descriptor parsed, or none names a title or an artist.
    MetadataParse,
    /// An archive entry names a parent directory or an absolute path.
    PathTraversal,
    /// An archive entry has no usable name.
    EmptyEntryName,
    /// The entry has no metadata to import with.
    MissingMetadata,
}

impl ImportError {
    pub open spec fn message_spec(self) -> Seq<char> {
        match self {
            ImportError::StabilityTimeout => "O arquivo nao ficou estavel dentro do tempo limite"@,
            ImportError::ArchiveRead => "Falha ao ler o arquivo zip (archive)"@,
            ImportError::MetadataParse => "Nenhum .osu com metadados validos (metadata)"@,
            ImportError::PathTraversal => "Entrada de ZIP com caminho invalido"@,
            ImportError::EmptyEntryName => "Entrada de ZIP vazia"@,
            ImportError::MissingMetadata => "Nao foi possivel ler os metadados do arquivo .osz"@,
        }
    }

    /// The detail text of the error.
    pub fn message(&self) -> (r: String)
        ensures
            r@ == self.message_spec(),
    {
        match self {
            ImportError::StabilityTimeout => String::from_str(
                "O arquivo nao ficou estavel dentro do tempo limite",
            ),
            ImportError::ArchiveRead => String::from_str("Falha ao ler o arquivo zip (archive)"),
            ImportError::MetadataParse => String::from_str(
                "Nenhum .osu com metadados validos (metadata)",
            ),
            ImportError::PathTraversal => String::from_str("Entrada de ZIP com caminho invalido"),
            ImportError::EmptyEntryName => String::from_str("Entrada de ZIP vazia"),
            ImportError::MissingMetadata => String::from_str(
                "Nao foi possivel ler os metadados do arquivo .osz",
            ),
        }
    }
}

} // verus!
