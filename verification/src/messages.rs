//! Data carried by the messages that the pipeline's actors exchange.

use vstd::prelude::*;

verus! {

/// One documentation chunk as stored in the database.
#[derive(Debug, Clone)]
pub struct DocChunkData {
    /// Identifier of the chunk
    pub chunk_id: String,
    /// Position of the chunk in its crate's documentation
    pub chunk_index: usize,
    /// The text of the chunk
    pub content: String,
    /// The kind of content
    pub content_type: String,
    /// The file the chunk was taken from
    pub source_file: String,
    /// Estimated number of tokens
    pub token_count: usize,
    /// Number of characters
    pub char_count: usize,
}

/// The mathematical content of a [`DocChunkData`].
pub struct DocChunkView {
    pub chunk_id: Seq<char>,
    pub chunk_index: usize,
    pub content: Seq<char>,
    pub content_type: Seq<char>,
    pub source_file: Seq<char>,
    pub token_count: usize,
    pub char_count: usize,
}

impl View for DocChunkData {
    type V = DocChunkView;

    open spec fn view(&self) -> DocChunkView {
        DocChunkView {
            chunk_id: self.chunk_id@,
            chunk_index: self.chunk_index,
            content: self.content@,
            content_type: self.content_type@,
            source_file: self.source_file@,
            token_count: self.token_count,
            char_count: self.char_count,
        }
    }
}

/// The contents of a sequence of chunks.
pub open spec fn chunks_view(v: Seq<DocChunkData>) -> Seq<DocChunkView> {
    Seq::new(v.len(), |i: int| v[i]@)
}

impl DocChunkData {
    /// A copy of this chunk.
    pub fn duplicate(&self) -> (r: DocChunkData)
        ensures
            r@ == self@,
    {
        DocChunkData {
            chunk_id: self.chunk_id.clone(),
            chunk_index: self.chunk_index,
            content: self.content.clone(),
            content_type: self.content_type.clone(),
            source_file: self.source_file.clone(),
            token_count: self.token_count,
            char_count: self.char_count,
        }
    }
}

} // verus!
