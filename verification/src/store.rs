//! The vector store, as the requests that are sent to it.
//!
//! Nothing here talks to a database. Each operation yields a [`Command`]; the
//! caller runs it on its session and, for a search, hands the answer back to
//! the [`SimilarSearch`] that asked.

use crate::embedding::{
    all_valid, valid_pairs, valid_vector, EmbeddedTexts, Embedding, EMBEDDING_DIMENSION,
};
use crate::errors::EmbeddingError;
use crate::text::{decimal, push_decimal};
use vstd::prelude::*;
use vstd::string::*;

verus! {

/// Makes sure that the vector extension is there.
pub const CREATE_EXTENSION: &'static str = "CREATE EXTENSION IF NOT EXISTS vector;";

/// The statement head of the batched insert; the rows follow it as one
/// `VALUES` list.
pub const INSERT_HEAD: &'static str = "INSERT INTO embeddings (text, embedding) ";

/// The statement that makes sure that the table of embeddings is there, with
/// vectors of `dimension` components.
pub open spec fn create_table_sql(dimension: nat) -> Seq<char> {
    "CREATE TABLE IF NOT EXISTS embeddings (id UUID DEFAULT gen_random_uuid(), text TEXT NOT NULL, embedding vector("@
        + decimal(dimension)
        + "), created_at TIMESTAMP DEFAULT CURRENT_TIMESTAMP, PRIMARY KEY (id));"@
}

/// The query for the texts nearest to a vector of `dimension` components:
/// closest first, the vector as first parameter, the limit as second.
pub open spec fn nearest_sql(dimension: nat) -> Seq<char> {
    "SELECT text, embedding <=> $1::vector("@ + decimal(dimension)
        + ") AS distance FROM embeddings WHERE embedding IS NOT NULL ORDER BY distance ASC LIMIT $2;"@
}

/// One request to the database session.
#[derive(Debug)]
pub enum Command {
    /// A statement without parameters.
    Execute { sql: String },
    /// One statement that inserts every row: `head`, then a `VALUES` list with
    /// one `(text, embedding)` tuple per row, in order.
    InsertRows { head: String, rows: Vec<(String, Vec<u32>)> },
    /// A query with two parameters, `query` and `top_k`, that answers with
    /// rows of which the `text` column is read.
    Nearest { sql: String, query: Vec<u32>, top_k: i32 },
}

impl Command {
    /// The command executes exactly the statement `sql`.
    pub open spec fn executes(self, sql: Seq<char>) -> bool {
        self matches Command::Execute { sql: s } && s@ == sql
    }

    /// The command inserts exactly `rows`, in one statement.
    pub open spec fn inserts(self, rows: Seq<(Seq<char>, Seq<u32>)>) -> bool {
        &&& self matches Command::InsertRows { head, rows: r }
        &&& head@ == INSERT_HEAD@
        &&& r.deep_view() == rows
    }

    /// The command asks for the `top_k` texts nearest to `query`.
    pub open spec fn asks(self, query: Seq<u32>, top_k: i32) -> bool {
        &&& self matches Command::Nearest { sql, query: q, top_k: k }
        &&& sql@ == nearest_sql(EMBEDDING_DIMENSION as nat)
        &&& q@ == query
        &&& k == top_k
    }
}

/// The statements that prepare the database, in the order in which they are
/// to be executed: the vector extension, then the table. Both leave what is
/// already there untouched.
pub fn create_schema() -> (r: Vec<Command>)
    ensures
        r@.len() == 2,
        r@[0].executes(CREATE_EXTENSION@),
        r@[1].executes(create_table_sql(EMBEDDING_DIMENSION as nat)),
{
    let mut table =
        "CREATE TABLE IF NOT EXISTS embeddings (id UUID DEFAULT gen_random_uuid(), text TEXT NOT NULL, embedding vector(".to_owned();
    push_decimal(&mut table, EMBEDDING_DIMENSION);
    table.append("), created_at TIMESTAMP DEFAULT CURRENT_TIMESTAMP, PRIMARY KEY (id));");
    let mut r: Vec<Command> = Vec::new();
    r.push(Command::Execute { sql: CREATE_EXTENSION.to_owned() });
    r.push(Command::Execute { sql: table });
    r
}

impl Embedding {
    /// The query for the `top_k` stored texts nearest to this embedding.
    pub fn fetch_similar(&self, top_k: i32) -> (r: Command)
        ensures
            r.asks(self@, top_k),
    {
        nearest(self.as_vec(), top_k)
    }
}

/// The vectors of `pairs`, in order.
pub open spec fn vectors_of(pairs: Seq<(Seq<char>, Seq<u32>)>) -> Seq<Seq<u32>> {
    Seq::new(pairs.len(), |i: int| pairs[i].1)
}

/// A search for the neighbours of every vector of a batch, as far as it has
/// come: `found[i]` is the answer to the query for `queries[i]`.
pub struct SearchView {
    pub queries: Seq<Seq<u32>>,
    pub top_k: i32,
    pub found: Seq<Seq<Seq<char>>>,
}

impl SearchView {
    /// A search that has asked nothing yet.
    pub open spec fn begin(queries: Seq<Seq<u32>>, top_k: i32) -> SearchView {
        SearchView { queries, top_k, found: Seq::empty() }
    }

    /// Every query has its answer.
    pub open spec fn complete(self) -> bool {
        self.found.len() >= self.queries.len()
    }

    /// The vector whose neighbours are asked for next, while the search is
    /// not complete.
    pub open spec fn pending(self) -> Seq<u32> {
        self.queries[self.found.len() as int]
    }

    /// The search once `rows` has answered the pending query.
    pub open spec fn answered(self, rows: Seq<Seq<char>>) -> SearchView {
        SearchView { found: self.found.push(rows), ..self }
    }

    /// The search once the answers of `replies` have come in, one by one.
    pub open spec fn run(self, replies: Seq<Seq<Seq<char>>>) -> SearchView
        decreases replies.len(),
    {
        if replies.len() == 0 {
            self
        } else {
            self.answered(replies.first()).run(replies.drop_first())
        }
    }

    /// Answers are appended in the order in which they come in; queries and
    /// limit stay as they are.
    pub proof fn lemma_run(self, replies: Seq<Seq<Seq<char>>>)
        ensures
            self.run(replies).queries == self.queries,
            self.run(replies).top_k == self.top_k,
            self.run(replies).found == self.found + replies,
        decreases replies.len(),
    {
        if replies.len() > 0 {
            let next = self.answered(replies.first());
            next.lemma_run(replies.drop_first());
            assert(next.found + replies.drop_first() =~= self.found + replies);
        } else {
            assert(self.found + replies =~= self.found);
        }
    }

    /// A search over `queries` asks for `queries[i]` as its query number `i`,
    /// is complete exactly when as many answers as queries have come in, and
    /// then holds, at each position, the answer to the query of that
    /// position.
    pub proof fn lemma_answers_align(
        queries: Seq<Seq<u32>>,
        top_k: i32,
        replies: Seq<Seq<Seq<char>>>,
    )
        requires
            replies.len() <= queries.len(),
        ensures
            SearchView::begin(queries, top_k).run(replies).found == replies,
            SearchView::begin(queries, top_k).run(replies).complete() <==> replies.len()
                == queries.len(),
            replies.len() < queries.len() ==> SearchView::begin(queries, top_k).run(
                replies,
            ).pending() == queries[replies.len() as int],
    {
        let start = SearchView::begin(queries, top_k);
        start.lemma_run(replies);
        assert(start.found + replies =~= replies);
    }
}

/// A similarity search over a batch that waits for the answer to the query
/// it has handed out.
#[derive(Debug)]
pub struct SimilarSearch {
    queries: Vec<Vec<u32>>,
    top_k: i32,
    found: Vec<Vec<String>>,
}

impl View for SimilarSearch {
    type V = SearchView;

    closed spec fn view(&self) -> SearchView {
        SearchView {
            queries: self.queries.deep_view(),
            top_k: self.top_k,
            found: self.found.deep_view(),
        }
    }
}

/// What the database session answered to a query.
#[derive(Debug)]
pub enum Reply {
    /// The `text` column of the rows, in the order of the answer.
    Rows(Vec<String>),
    /// The query failed, with this message.
    Failure(String),
}

/// What a search does once it has an answer.
#[derive(Debug)]
pub enum Step {
    /// Run `command` and hand its answer to `search`.
    Query { command: Command, search: SimilarSearch },
    /// The search is over: one list of texts per pair of the batch, in the
    /// order of the batch.
    Done(Vec<Vec<String>>),
    /// The search is given up.
    Failed(EmbeddingError),
}

impl SimilarSearch {
    #[verifier::type_invariant]
    spec fn well_formed(&self) -> bool {
        &&& !self@.complete()
        &&& all_valid(self@.queries)
    }

    /// Takes the answer to the pending query. A failure ends the search with
    /// a database error that carries the message. Rows are kept as the answer
    /// for the pending vector; the search then asks for the next vector, or
    /// is done when there is none.
    pub fn step(self, reply: Reply) -> (r: Step)
        ensures
            !self@.complete(),
            match reply {
                Reply::Failure(message) => r matches Step::Failed(EmbeddingError::DbError(m))
                    && m@ == message@,
                Reply::Rows(rows) => {
                    let next = self@.answered(rows.deep_view());
                    if next.complete() {
                        r matches Step::Done(found) && found.deep_view() == next.found
                    } else {
                        &&& r matches Step::Query { command, search }
                        &&& search@ == next
                        &&& command.asks(next.pending(), next.top_k)
                    }
                },
            },
    {
        proof {
            use_type_invariant(&self);
        }
        match reply {
            Reply::Failure(message) => Step::Failed(EmbeddingError::DbError(message)),
            Reply::Rows(rows) => {
                let ghost before = self@;
                let SimilarSearch { queries, top_k, mut found } = self;
                found.push(rows);
                assert(found.deep_view() =~= before.found.push(rows.deep_view()));
                if found.len() >= queries.len() {
                    Step::Done(found)
                } else {
                    let command = nearest(&queries[found.len()], top_k);
                    assert(queries@[found@.len() as int].deep_view() =~= queries@[found@.len() as int]@);
                    Step::Query { command, search: SimilarSearch { queries, top_k, found } }
                }
            },
        }
    }
}

fn nearest(query: &Vec<u32>, top_k: i32) -> (r: Command)
    ensures
        r.asks(query@, top_k),
{
    let mut sql = "SELECT text, embedding <=> $1::vector(".to_owned();
    push_decimal(&mut sql, EMBEDDING_DIMENSION);
    sql.append(
        ") AS distance FROM embeddings WHERE embedding IS NOT NULL ORDER BY distance ASC LIMIT $2;",
    );
    Command::Nearest { sql, query: query.clone(), top_k }
}

impl EmbeddedTexts {
    /// The one statement that persists every pair of the batch: text and
    /// embedding as they are, a row per pair, in the order of the batch.
    pub fn store(&self) -> (r: Command)
        ensures
            r.inserts(self@),
    {
        let pairs = self.as_vec();
        let mut rows: Vec<(String, Vec<u32>)> = Vec::with_capacity(pairs.len());
        let mut i: usize = 0;
        while i < pairs.len()
            invariant
                i <= pairs.len(),
                rows@.len() == i,
                forall|j: int|
                    0 <= j < i ==> (#[trigger] rows.deep_view()[j]) == pairs.deep_view()[j],
            decreases pairs.len() - i,
        {
            let ghost before = rows.deep_view();
            let text = pairs[i].0.clone();
            let vector = pairs[i].1.as_vec().clone();
            rows.push((text, vector));
            assert forall|j: int| 0 <= j < i + 1 implies (#[trigger] rows.deep_view()[j])
                == pairs.deep_view()[j] by {
                if j < i {
                    assert(rows.deep_view()[j] == before[j]);
                }
            }
            i += 1;
        }
        assert(rows.deep_view() =~= pairs.deep_view());
        Command::InsertRows { head: INSERT_HEAD.to_owned(), rows }
    }

    /// Begins the search for the `top_k` nearest stored texts of every pair
    /// of the batch, one query per pair, in the order of the batch. The
    /// result is the first query, for the first pair, with the search that
    /// waits for its answer.
    pub fn fetch_similar(&self, top_k: i32) -> (r: Step)
        ensures
            r matches Step::Query { command, search } && search@ == SearchView::begin(
                vectors_of(self@),
                top_k,
            ) && command.asks(self@[0].1, top_k),
            valid_pairs(self@),
    {
        let pairs = self.as_vec();
        let mut queries: Vec<Vec<u32>> = Vec::with_capacity(pairs.len());
        let mut i: usize = 0;
        while i < pairs.len()
            invariant
                i <= pairs.len(),
                queries@.len() == i,
                forall|j: int|
                    0 <= j < i ==> (#[trigger] queries.deep_view()[j]) == pairs.deep_view()[j].1,
                forall|j: int| 0 <= j < i ==> valid_vector(#[trigger] queries.deep_view()[j]),
            decreases pairs.len() - i,
        {
            let ghost before = queries.deep_view();
            let vector = pairs[i].1.as_vec().clone();
            queries.push(vector);
            assert forall|j: int| 0 <= j < i + 1 implies (#[trigger] queries.deep_view()[j])
                == pairs.deep_view()[j].1 && valid_vector(queries.deep_view()[j]) by {
                if j < i {
                    assert(queries.deep_view()[j] == before[j]);
                }
            }
            i += 1;
        }
        assert(queries.deep_view() =~= vectors_of(self@));
        let command = nearest(&queries[0], top_k);
        assert(queries@[0].deep_view() =~= queries@[0]@);
        assert(queries.deep_view()[0] == self@[0].1);
        let found: Vec<Vec<String>> = Vec::new();
        assert(found.deep_view() =~= Seq::<Seq<Seq<char>>>::empty());
        Step::Query { command, search: SimilarSearch { queries, top_k, found } }
    }
}

} // verus!
