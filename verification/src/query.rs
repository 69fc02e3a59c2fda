//! The query for the attributes of a device: the first script that takes it
//! answers with JSON on its standard output.

use crate::callouts::{notice_view, reply_view, Callout, Match, Notice, Reply, Request};
use crate::error::{CalloutError, CalloutErrorView};
use crate::json::{from_str, null};
use crate::model::{
    attributes, attributes_from, get_attributes, get_attributes_dir, no_attributes, AnswerView,
    FetchView, QueryView,
};
use crate::order::texts;
use crate::script::{option_text, Device, Output};
use crate::tokens::{Action, Event};
use vstd::prelude::*;
use vstd::string::*;

verus! {

/// The model of the attributes, or of the failure to get them.
pub open spec fn attributes_view(r: Result<serde_json::Value, CalloutError>) -> Result<
    serde_json::Value,
    CalloutErrorView,
> {
    match r {
        Ok(value) => Ok(value),
        Err(e) => Err(e@),
    }
}

/// How a query goes on in one directory, or how it ended there.
#[derive(Debug)]
pub enum Fetch {
    Ask(Request),
    Settled(Result<serde_json::Value, CalloutError>),
}

impl View for Fetch {
    type V = FetchView;

    open spec fn view(&self) -> FetchView {
        match self {
            Fetch::Ask(request) => FetchView::Ask(request@),
            Fetch::Settled(result) => FetchView::Settled(attributes_view(*result)),
        }
    }
}

/// What a query has come to in one directory after one move.
#[derive(Debug)]
pub struct Answer {
    pub echo: Option<String>,
    pub notice: Option<Notice>,
    pub next: Fetch,
}

impl View for Answer {
    type V = AnswerView;

    open spec fn view(&self) -> AnswerView {
        AnswerView {
            echo: option_text(self.echo),
            notice: notice_view(self.notice),
            next: self.next@,
        }
    }
}

/// What a query has come to after one move. `echo` is a line to pass on to
/// the operator at once, `notice` something for the log.
#[derive(Debug)]
pub enum Query {
    Ask { session: Callout, echo: Option<String>, notice: Option<Notice>, request: Request },
    Done {
        echo: Option<String>,
        notice: Option<Notice>,
        result: Result<serde_json::Value, CalloutError>,
    },
}

impl View for Query {
    type V = QueryView;

    open spec fn view(&self) -> QueryView {
        match self {
            Query::Ask { session, echo, notice, request } => QueryView::Ask {
                session: session@,
                echo: option_text(*echo),
                notice: notice_view(*notice),
                request: request@,
            },
            Query::Done { echo, notice, result } => QueryView::Done {
                echo: option_text(*echo),
                notice: notice_view(*notice),
                result: attributes_view(*result),
            },
        }
    }
}

/// The attributes, once the text has been read as JSON.
pub fn attributes_of(parsed: Result<serde_json::Value, serde_json::Error>) -> (r: Result<
    serde_json::Value,
    CalloutError,
>)
    ensures
        attributes_view(r) == attributes_from(parsed),
{
    match parsed {
        Ok(value) => Ok(value),
        Err(e) => Err(CalloutError::InvalidJSON(e)),
    }
}

impl Callout {
    /// Reads the answer of the script at `path` to a query.
    pub fn parse_attribute_output(path: &String, output: Output) -> (result: Result<
        serde_json::Value,
        CalloutError,
    >)
        ensures
            attributes_view(result) == attributes(path@, output@),
            output@.code == Some(0i32) && output@.stdout.len() == 0 ==> result is Ok,
            output@.code != Some(0i32) ==> result is Err,
    {
        let succeeded = match output.code {
            Some(n) => n == 0,
            None => false,
        };
        if succeeded {
            if output.stdout.as_str().is_empty() {
                Ok(null())
            } else if output.stdout == String::from_str("[{}]") {
                attributes_of(from_str("[]"))
            } else {
                attributes_of(from_str(output.stdout.as_str()))
            }
        } else {
            Err(CalloutError::InvocationFailure(path.clone(), output.code))
        }
    }

    /// One move of the query in the directory `dir`. `reply` is `None` to
    /// begin, and then the answer to what was asked.
    pub fn get_attributes_dir(&mut self, dev: &Device, dir: &String, reply: Option<Reply>) -> (answer:
        Answer)
        requires
            dev@.mdev_type is Some ==> dev@.parent is Some,
        ensures
            (final(self)@, answer@) == get_attributes_dir(
                old(self)@,
                dev@,
                dir@,
                reply_view(reply),
            ),
    {
        match reply {
            None => {
                *self = Callout::querying(self.dir());
                Answer { echo: None, notice: None, next: Fetch::Ask(Request::List(dir.clone())) }
            },
            Some(reply) => {
                let scan = self.invoke_first_matching_script(
                    dev,
                    Event::Get,
                    Action::Attributes,
                    reply,
                );
                let next = match scan.found {
                    Match::Ask(request) => Fetch::Ask(request),
                    Match::Found(script, output) => Fetch::Settled(
                        Callout::parse_attribute_output(&script, output),
                    ),
                    Match::Unstartable(script) => Fetch::Settled(
                        Err(CalloutError::InvocationFailure(script, None)),
                    ),
                    Match::Exhausted => Fetch::Settled(Err(CalloutError::NoMatchingScript)),
                };
                Answer { echo: scan.echo, notice: scan.notice, next }
            },
        }
    }

    /// One move of the query for the attributes of `dev` in the directories
    /// `dirs`, taken in their order. `reply` is `None` to begin, and then the
    /// answer to what was asked.
    ///
    /// A device that no script speaks for has no attributes, and that is no
    /// failure.
    pub fn get_attributes(self, dirs: &Vec<String>, dev: &Device, reply: Option<Reply>) -> (q:
        Query)
        requires
            dev@.mdev_type is Some ==> dev@.parent is Some,
        ensures
            q@ == get_attributes(self@, texts(dirs@), dev@, reply_view(reply)),
            no_attributes() is Ok,
    {
        let nothing = null();
        let mut session = self;
        if reply.is_none() {
            session.turn_to(0);
        }
        let dir = session.dir();
        if dir < dirs.len() {
            let answer = session.get_attributes_dir(dev, &dirs[dir], reply);
            match answer.next {
                Fetch::Ask(request) => Query::Ask {
                    session,
                    echo: answer.echo,
                    notice: answer.notice,
                    request,
                },
                Fetch::Settled(Err(CalloutError::NoMatchingScript)) => {
                    session.turn_to(dir + 1);
                    if dir + 1 < dirs.len() {
                        let first = session.get_attributes_dir(dev, &dirs[dir + 1], None);
                        match first.next {
                            Fetch::Ask(request) => Query::Ask {
                                session,
                                echo: answer.echo,
                                notice: answer.notice,
                                request,
                            },
                            Fetch::Settled(result) => Query::Done {
                                echo: answer.echo,
                                notice: answer.notice,
                                result,
                            },
                        }
                    } else {
                        Query::Done { echo: answer.echo, notice: answer.notice, result: Ok(nothing) }
                    }
                },
                Fetch::Settled(result) => Query::Done {
                    echo: answer.echo,
                    notice: answer.notice,
                    result,
                },
            }
        } else {
            Query::Done { echo: None, notice: None, result: Ok(nothing) }
        }
    }
}

} // verus!
