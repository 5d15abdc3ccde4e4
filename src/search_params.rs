use vstd::prelude::*;
use vstd::string::StringExecFns;

use crate::data_reader::{lines_of, DataReader};
use crate::error::{is_client_error, AppError};
use crate::in_memory_reader::InMemoryReader;
use crate::text::{decimal, occurs_in, push_decimal, str_contains};

verus! {

/// The lines among `lines` that contain `query`, in their order.
pub open spec fn matching(lines: Seq<Seq<char>>, query: Seq<char>) -> Seq<Seq<char>> {
    lines.filter(|l: Seq<char>| occurs_in(query, l))
}

/// Appends `line` to `out` when it contains `query`.
pub fn collect_match(query: &str, line: String, out: &mut Vec<String>)
    ensures
        lines_of(final(out)@) == lines_of(old(out)@) + matching(seq![line@], query@),
{
    let ghost l = line@;
    proof {
        lemma_matching_single(l, query@);
    }
    if str_contains(line.as_str(), query) {
        out.push(line);
        assert(lines_of(out@) =~= lines_of(old(out)@) + seq![l]);
    } else {
        assert(lines_of(out@) =~= lines_of(old(out)@) + Seq::<Seq<char>>::empty());
    }
}

/// A query bound to the line source it runs over.
pub struct SearchParams<R> {
    query: String,
    reader: R,
}

impl<R: DataReader> SearchParams<R> {
    /// The text searched for.
    pub closed spec fn spec_query(&self) -> Seq<char> {
        self.query@
    }

    /// The line source searched.
    pub closed spec fn spec_reader(&self) -> R {
        self.reader
    }

    /// Binds `query` to `reader`.
    pub fn new(query: String, reader: R) -> (r: Self)
        ensures
            r.spec_query() == query@,
            r.spec_reader() == reader,
    {
        SearchParams { query, reader }
    }

    /// The text searched for.
    pub fn query(&self) -> (r: &str)
        ensures
            r@ == self.spec_query(),
    {
        self.query.as_str()
    }

    /// Gives up the search and hands back its line source.
    pub fn into_reader(self) -> (r: R)
        ensures
            r == self.spec_reader(),
    {
        self.reader
    }

    /// Reads the line source to its end and appends to `out`, in source order,
    /// every line that contains the query.
    pub fn exec(&mut self, out: &mut Vec<String>)
        ensures
            final(self).spec_query() == old(self).spec_query(),
            final(self).spec_reader().pending() == Seq::<Seq<char>>::empty(),
            lines_of(final(out)@) == lines_of(old(out)@) + matching(
                old(self).spec_reader().pending(),
                old(self).spec_query(),
            ),
    {
        let ghost lines = self.reader.pending();
        let ghost q = self.query@;
        let ghost start = lines_of(out@);
        let ghost mut k: int = 0;
        loop
            invariant
                0 <= k <= lines.len(),
                self.query@ == q,
                self.reader.pending() == lines.subrange(k, lines.len() as int),
                lines_of(out@) == start + matching(lines.subrange(0, k), q),
            ensures
                self.query@ == q,
                self.reader.pending() == Seq::<Seq<char>>::empty(),
                lines_of(out@) == start + matching(lines, q),
            decreases lines.len() - k,
        {
            let ghost before = self.reader.pending();
            match self.reader.next() {
                Some(line) => {
                    proof {
                        assert(before.len() > 0);
                        assert(line@ == lines[k]);
                        assert(lines.subrange(k + 1, lines.len() as int) =~= before.drop_first());
                    }
                    collect_match(self.query.as_str(), line, out);
                    proof {
                        let done = lines.subrange(0, k + 1);
                        assert(done.drop_last() =~= lines.subrange(0, k));
                        assert(done.last() == lines[k]);
                        lemma_matching_push(lines.subrange(0, k), lines[k], q);
                        assert(done =~= lines.subrange(0, k).push(lines[k]));
                        k = k + 1;
                    }
                },
                None => {
                    proof {
                        assert(before.len() == 0);
                        assert(k == lines.len());
                        assert(lines.subrange(0, k) =~= lines);
                        assert(self.reader.pending() =~= Seq::<Seq<char>>::empty());
                    }
                    break;
                },
            }
        }
    }
}

/// A search as the builder set it up. Which line source it runs over is
/// chosen by the number of arguments alone.
pub enum Search {
    /// A search over the lines handed to the builder.
    InMemory(SearchParams<InMemoryReader>),
    /// A search over the lines of the file at `path`, which the caller opens.
    File { query: String, path: String },
}

/// The text of each string held, if any is held.
pub open spec fn opt_lines(v: Option<Vec<String>>) -> Option<Seq<Seq<char>>> {
    match v {
        Some(a) => Some(lines_of(a@)),
        None => None,
    }
}

/// `r` is a search of the file at `path` for `query`.
pub open spec fn is_file_search(r: Result<Search, AppError>, query: Seq<char>, path: Seq<char>) -> bool {
    r matches Ok(Search::File { query: q, path: p }) && q@ == query && p@ == path
}

/// `r` is a search over lines held in memory, `lines`, for `query`.
pub open spec fn is_memory_search(
    r: Result<Search, AppError>,
    query: Seq<char>,
    lines: Seq<Seq<char>>,
) -> bool {
    r matches Ok(Search::InMemory(p)) && p.spec_query() == query && p.spec_reader().pending()
        == lines
}

/// `r` failed with a client error whose message is `msg`.
pub open spec fn fails_with(r: Result<Search, AppError>, msg: Seq<char>) -> bool {
    r matches Err(e) && is_client_error(e, msg)
}

/// What `build` gives for the arguments `args` and in-memory lines `data`
/// that were configured.
pub open spec fn build_result(
    r: Result<Search, AppError>,
    args: Option<Seq<Seq<char>>>,
    data: Option<Seq<Seq<char>>>,
) -> bool {
    match args {
        None => fails_with(r, "no arguments provided"@),
        Some(a) => if a.len() == 2 {
            is_file_search(r, a[0], a[1])
        } else if a.len() == 1 {
            match data {
                Some(d) => is_memory_search(r, a[0], d),
                None => fails_with(r, "no file path or in-memory data provided"@),
            }
        } else {
            fails_with(r, "expected 1 or 2 arguments, got "@ + decimal(a.len()))
        },
    }
}

/// Collects the configuration of a search, then checks it and sets the
/// search up.
pub struct SearchParamsBuilder {
    args: Option<Vec<String>>,
    in_memory_data: Option<Vec<String>>,
}

impl SearchParamsBuilder {
    /// The arguments configured, if any.
    pub closed spec fn spec_args(&self) -> Option<Seq<Seq<char>>> {
        opt_lines(self.args)
    }

    /// The in-memory lines configured, if any.
    pub closed spec fn spec_data(&self) -> Option<Seq<Seq<char>>> {
        opt_lines(self.in_memory_data)
    }

    /// A builder with nothing configured.
    pub fn new() -> (r: SearchParamsBuilder)
        ensures
            r.spec_args() is None,
            r.spec_data() is None,
    {
        SearchParamsBuilder { args: None, in_memory_data: None }
    }

    /// Sets the arguments to a copy of `args`, replacing any set before.
    pub fn args(self, args: &[String]) -> (r: SearchParamsBuilder)
        ensures
            r.spec_args() == Some(lines_of(args@)),
            r.spec_data() == self.spec_data(),
    {
        let mut copy: Vec<String> = Vec::new();
        let mut i: usize = 0;
        while i < args.len()
            invariant
                i <= args@.len(),
                copy@ == args@.subrange(0, i as int),
            decreases args@.len() - i,
        {
            copy.push(args[i].clone());
            i = i + 1;
            assert(copy@ =~= args@.subrange(0, i as int));
        }
        assert(args@.subrange(0, i as int) =~= args@);
        SearchParamsBuilder { args: Some(copy), in_memory_data: self.in_memory_data }
    }

    /// Sets the in-memory lines to `data`, replacing any set before. This
    /// alone does not choose the in-memory source.
    pub fn in_memory_data(self, data: Vec<String>) -> (r: SearchParamsBuilder)
        ensures
            r.spec_args() == self.spec_args(),
            r.spec_data() == Some(lines_of(data@)),
    {
        SearchParamsBuilder { args: self.args, in_memory_data: Some(data) }
    }

    fn get_search_parms_for_in_memory_data(query: String, data: Option<Vec<String>>) -> (r: Result<
        Search,
        AppError,
    >)
        ensures
            match opt_lines(data) {
                Some(d) => is_memory_search(r, query@, d),
                None => fails_with(r, "no file path or in-memory data provided"@),
            },
    {
        match data {
            Some(dat) => Ok(Search::InMemory(SearchParams::new(query, InMemoryReader::new(dat)))),
            None => Err(
                AppError::Client(String::from_str("no file path or in-memory data provided")),
            ),
        }
    }

    /// Checks the configuration and sets the search up: two arguments give a
    /// search of a file (query, then path), one argument a search of the
    /// in-memory lines; anything else is a client error.
    pub fn build(self) -> (r: Result<Search, AppError>)
        ensures
            build_result(r, self.spec_args(), self.spec_data()),
            self.spec_args() is Some && self.spec_args()->0.len() != 1 && self.spec_args()->0.len()
                != 2 ==> (r matches Err(AppError::Client(m)) && occurs_in("1 or 2"@, m@)
                && occurs_in(decimal(self.spec_args()->0.len()), m@)),
    {
        match self.args {
            Some(a) => {
                let n = a.len();
                if n == 2 {
                    Ok(Search::File { query: a[0].clone(), path: a[1].clone() })
                } else if n == 1 {
                    SearchParamsBuilder::get_search_parms_for_in_memory_data(
                        a[0].clone(),
                        self.in_memory_data,
                    )
                } else {
                    let mut m = String::from_str("expected 1 or 2 arguments, got ");
                    let ghost head = m@;
                    push_decimal(&mut m, n);
                    proof {
                        reveal_strlit("expected 1 or 2 arguments, got ");
                        reveal_strlit("1 or 2");
                        let count = decimal(n as nat);
                        assert(m@.subrange(9, 9 + "1 or 2"@.len() as int) =~= "1 or 2"@);
                        assert(m@.subrange(head.len() as int, (head.len() + count.len()) as int) =~= count);
                        assert(occurs_in("1 or 2"@, m@));
                        assert(occurs_in(count, m@));
                    }
                    Err(AppError::Client(m))
                }
            },
            None => Err(AppError::Client(String::from_str("no arguments provided"))),
        }
    }
}

/// Matching distributes over appending one line.
proof fn lemma_matching_push(lines: Seq<Seq<char>>, line: Seq<char>, query: Seq<char>)
    ensures
        matching(lines.push(line), query) == matching(lines, query) + matching(seq![line], query),
{
    reveal(Seq::filter);
    assert(lines.push(line).drop_last() =~= lines);
    lemma_matching_single(line, query);
    if occurs_in(query, line) {
        assert(matching(lines.push(line), query) =~= matching(lines, query) + seq![line]);
    } else {
        assert(matching(lines.push(line), query) =~= matching(lines, query) + Seq::<
            Seq<char>,
        >::empty());
    }
}

/// A single line matches exactly when it contains the query.
proof fn lemma_matching_single(line: Seq<char>, query: Seq<char>)
    ensures
        matching(seq![line], query) == if occurs_in(query, line) {
            seq![line]
        } else {
            Seq::<Seq<char>>::empty()
        },
{
    reveal(Seq::filter);
    let empty = Seq::<Seq<char>>::empty();
    assert(seq![line].drop_last() =~= empty);
    assert(matching(empty, query) == empty);
    if occurs_in(query, line) {
        assert(matching(seq![line], query) =~= seq![line]);
    } else {
        assert(matching(seq![line], query) =~= empty);
    }
}

} // verus!
