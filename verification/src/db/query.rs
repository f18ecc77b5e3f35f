//! Building filtered SQL queries: every filter value is bound as a
//! parameter, never spliced into the SQL text.
use vstd::prelude::*;
use crate::text::{append_all, chars_of, decimal, decimal_chars, signed_decimal, signed_decimal_chars, string_of, string_views};

verus! {

/// A SQL statement with its positional parameters, in order.
#[derive(Debug, Clone)]
pub struct SqlQuery {
    pub sql: String,
    pub bindings: Vec<String>,
}

/// The fragment when the filter is present.
pub open spec fn clause_if(present: bool, fragment: Seq<char>) -> Seq<char> {
    if present {
        fragment
    } else {
        Seq::empty()
    }
}

/// The bound value of a text filter, if present.
pub open spec fn bind_text(v: Option<String>) -> Seq<Seq<char>> {
    match v {
        Some(s) => seq![s@],
        None => Seq::empty(),
    }
}

/// The bound value of an integer filter, in decimal, if present.
pub open spec fn bind_int(v: Option<i64>) -> Seq<Seq<char>> {
    match v {
        Some(n) => seq![signed_decimal(n as int)],
        None => Seq::empty(),
    }
}

/// A `LIKE` pattern matching any text that contains the value.
pub open spec fn bind_like(v: Option<String>) -> Seq<Seq<char>> {
    match v {
        Some(s) => seq!["%"@ + s@ + "%"@],
        None => Seq::empty(),
    }
}

/// The decimal form of a severity filter, if present.
pub open spec fn bind_u8(v: Option<u8>) -> Seq<Seq<char>> {
    match v {
        Some(n) => seq![decimal(n as nat)],
        None => Seq::empty(),
    }
}

/// `1` or `0` for a flag filter, if present.
pub open spec fn bind_flag(v: Option<bool>) -> Seq<Seq<char>> {
    match v {
        Some(b) => seq![if b {
            "1"@
        } else {
            "0"@
        }],
        None => Seq::empty(),
    }
}

/// ` LIMIT n` and ` OFFSET m`, each when given.
pub open spec fn page_clause(limit: Option<i64>, offset: Option<i64>) -> Seq<char> {
    (match limit {
        Some(l) => " LIMIT "@ + signed_decimal(l as int),
        None => Seq::empty(),
    }) + (match offset {
        Some(o) => " OFFSET "@ + signed_decimal(o as int),
        None => Seq::empty(),
    })
}

/// Text under construction: the SQL and its parameters.
pub struct QueryBuilder {
    pub sql: Vec<char>,
    pub bindings: Vec<String>,
}

impl QueryBuilder {
    /// A builder holding the base statement and no parameter.
    pub fn new(base: &str) -> (r: QueryBuilder)
        ensures
            r.sql@ == base@,
            r.bindings@.len() == 0,
    {
        QueryBuilder { sql: chars_of(base), bindings: Vec::new() }
    }

    /// Append SQL text.
    pub fn text(&mut self, fragment: &str)
        ensures
            final(self).sql@ == old(self).sql@ + fragment@,
            final(self).bindings@ == old(self).bindings@,
    {
        append_all(&mut self.sql, &chars_of(fragment));
    }

    /// Append a condition on a text filter, binding its value, when present.
    pub fn text_filter(&mut self, fragment: &str, v: &Option<String>)
        ensures
            final(self).sql@ == old(self).sql@ + clause_if(v is Some, fragment@),
            string_views(final(self).bindings@) == string_views(old(self).bindings@) + bind_text(*v),
    {
        let ghost b = string_views(self.bindings@);
        let ghost s = self.sql@;
        match v {
            Some(x) => {
                append_all(&mut self.sql, &chars_of(fragment));
                self.bindings.push(x.clone());
                assert(string_views(self.bindings@) =~= b + bind_text(*v));
            },
            None => {
                assert(string_views(self.bindings@) =~= b + bind_text(*v));
                assert(self.sql@ =~= s + clause_if(v is Some, fragment@));
            },
        }
    }

    /// Append a `LIKE` condition on a text filter, when present.
    pub fn like_filter(&mut self, fragment: &str, v: &Option<String>)
        ensures
            final(self).sql@ == old(self).sql@ + clause_if(v is Some, fragment@),
            string_views(final(self).bindings@) == string_views(old(self).bindings@) + bind_like(*v),
    {
        let ghost b = string_views(self.bindings@);
        let ghost s = self.sql@;
        match v {
            Some(x) => {
                append_all(&mut self.sql, &chars_of(fragment));
                let mut p = chars_of("%");
                append_all(&mut p, &chars_of(x.as_str()));
                append_all(&mut p, &chars_of("%"));
                self.bindings.push(string_of(&p));
                assert(string_views(self.bindings@) =~= b + bind_like(*v));
            },
            None => {
                assert(string_views(self.bindings@) =~= b + bind_like(*v));
                assert(self.sql@ =~= s + clause_if(v is Some, fragment@));
            },
        }
    }

    /// Append a condition on an integer filter, binding its decimal form,
    /// when present.
    pub fn int_filter(&mut self, fragment: &str, v: Option<i64>)
        ensures
            final(self).sql@ == old(self).sql@ + clause_if(v is Some, fragment@),
            string_views(final(self).bindings@) == string_views(old(self).bindings@) + bind_int(v),
    {
        let ghost b = string_views(self.bindings@);
        let ghost s = self.sql@;
        match v {
            Some(n) => {
                append_all(&mut self.sql, &chars_of(fragment));
                self.bindings.push(string_of(&signed_decimal_chars(n)));
                assert(string_views(self.bindings@) =~= b + bind_int(v));
            },
            None => {
                assert(string_views(self.bindings@) =~= b + bind_int(v));
                assert(self.sql@ =~= s + clause_if(v is Some, fragment@));
            },
        }
    }

    /// Append a condition on a severity filter, binding its decimal form,
    /// when present.
    pub fn u8_filter(&mut self, fragment: &str, v: Option<u8>)
        ensures
            final(self).sql@ == old(self).sql@ + clause_if(v is Some, fragment@),
            string_views(final(self).bindings@) == string_views(old(self).bindings@) + bind_u8(v),
    {
        let ghost b = string_views(self.bindings@);
        let ghost s = self.sql@;
        match v {
            Some(n) => {
                append_all(&mut self.sql, &chars_of(fragment));
                self.bindings.push(string_of(&decimal_chars(n as u64)));
                assert(string_views(self.bindings@) =~= b + bind_u8(v));
            },
            None => {
                assert(string_views(self.bindings@) =~= b + bind_u8(v));
                assert(self.sql@ =~= s + clause_if(v is Some, fragment@));
            },
        }
    }

    /// Append a condition on a flag filter, binding `1` or `0`, when present.
    pub fn flag_filter(&mut self, fragment: &str, v: Option<bool>)
        ensures
            final(self).sql@ == old(self).sql@ + clause_if(v is Some, fragment@),
            string_views(final(self).bindings@) == string_views(old(self).bindings@) + bind_flag(v),
    {
        let ghost b = string_views(self.bindings@);
        let ghost s = self.sql@;
        match v {
            Some(m) => {
                append_all(&mut self.sql, &chars_of(fragment));
                let flag = if m {
                    "1"
                } else {
                    "0"
                };
                self.bindings.push(flag.to_owned());
                assert(string_views(self.bindings@) =~= b + bind_flag(v));
            },
            None => {
                assert(string_views(self.bindings@) =~= b + bind_flag(v));
                assert(self.sql@ =~= s + clause_if(v is Some, fragment@));
            },
        }
    }

    /// Append ` LIMIT n` and ` OFFSET m`, each when given.
    pub fn page(&mut self, limit: Option<i64>, offset: Option<i64>)
        ensures
            final(self).sql@ == old(self).sql@ + page_clause(limit, offset),
            final(self).bindings@ == old(self).bindings@,
    {
        let ghost s = self.sql@;
        if let Some(l) = limit {
            append_all(&mut self.sql, &chars_of(" LIMIT "));
            append_all(&mut self.sql, &signed_decimal_chars(l));
        }
        if let Some(o) = offset {
            append_all(&mut self.sql, &chars_of(" OFFSET "));
            append_all(&mut self.sql, &signed_decimal_chars(o));
        }
        assert(self.sql@ =~= s + page_clause(limit, offset));
    }

    /// The finished statement.
    pub fn finish(self) -> (r: SqlQuery)
        ensures
            r.sql@ == self.sql@,
            r.bindings == self.bindings,
    {
        SqlQuery { sql: string_of(&self.sql), bindings: self.bindings }
    }
}

} // verus!
