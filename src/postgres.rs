use vstd::prelude::*;

use crate::pipeline::StreamError;
use crate::statement::views_of;

verus! {

/// The program that writes the dump.
pub const DUMP_PROGRAM: &'static str = "pg_dump";

/// The environment variable that carries the password to the dump program,
/// so that it never shows among the process arguments.
pub const PASSWORD_VARIABLE: &'static str = "PGPASSWORD";

/// Connection settings of the database to dump.
pub struct Postgres<'a> {
    host: &'a str,
    port: u16,
    database: &'a str,
    username: &'a str,
    password: &'a str,
}

pub open spec fn digit_char(d: nat) -> char {
    seq!['0', '1', '2', '3', '4', '5', '6', '7', '8', '9'][d as int]
}

/// The decimal digits of `n`, without leading zeros.
pub open spec fn decimal_of(n: nat) -> Seq<char>
    decreases n,
{
    if n < 10 {
        seq![digit_char(n)]
    } else {
        decimal_of(n / 10) + seq![digit_char(n % 10)]
    }
}

/// The arguments of the dump program for the given settings: one insertion
/// statement per row, then host, port, database and user.
pub open spec fn dump_arguments_of(
    host: Seq<char>,
    port: u16,
    database: Seq<char>,
    username: Seq<char>,
) -> Seq<Seq<char>> {
    seq![
        "--column-inserts"@,
        "-h"@,
        host,
        "-p"@,
        decimal_of(port as nat),
        "-d"@,
        database,
        "-U"@,
        username,
    ]
}

fn digit_str(d: u16) -> (r: &'static str)
    requires
        d < 10,
    ensures
        r@ == seq![digit_char(d as nat)],
{
    proof {
        reveal_strlit("0");
        reveal_strlit("1");
        reveal_strlit("2");
        reveal_strlit("3");
        reveal_strlit("4");
        reveal_strlit("5");
        reveal_strlit("6");
        reveal_strlit("7");
        reveal_strlit("8");
        reveal_strlit("9");
    }
    match d {
        0 => "0",
        1 => "1",
        2 => "2",
        3 => "3",
        4 => "4",
        5 => "5",
        6 => "6",
        7 => "7",
        8 => "8",
        _ => "9",
    }
}

fn append_decimal(s: &mut String, n: u16)
    ensures
        final(s)@ == old(s)@ + decimal_of(n as nat),
    decreases n,
{
    if n >= 10 {
        append_decimal(s, n / 10);
    }
    s.append(digit_str(n % 10));
    assert(final(s)@ =~= old(s)@ + decimal_of(n as nat));
}

/// The decimal text of a port number.
pub fn port_text(port: u16) -> (r: String)
    ensures
        r@ == decimal_of(port as nat),
{
    let mut s = String::new();
    append_decimal(&mut s, port);
    s
}

fn owned(s: &str) -> (r: String)
    ensures
        r@ == s@,
{
    String::from_str(s)
}

impl<'a> Postgres<'a> {
    pub closed spec fn host_spec(&self) -> Seq<char> {
        self.host@
    }

    pub closed spec fn port_spec(&self) -> u16 {
        self.port
    }

    pub closed spec fn database_spec(&self) -> Seq<char> {
        self.database@
    }

    pub closed spec fn username_spec(&self) -> Seq<char> {
        self.username@
    }

    pub closed spec fn password_spec(&self) -> Seq<char> {
        self.password@
    }

    pub fn new(
        host: &'a str,
        port: u16,
        database: &'a str,
        username: &'a str,
        password: &'a str,
    ) -> (r: Self)
        ensures
            r.host_spec() == host@,
            r.port_spec() == port,
            r.database_spec() == database@,
            r.username_spec() == username@,
            r.password_spec() == password@,
    {
        Postgres { host, port, database, username, password }
    }

    /// Prepares the source for a run. The settings need no preparation, so
    /// this always succeeds and leaves them as they are.
    pub fn init(&mut self) -> (r: Result<(), StreamError>)
        ensures
            r is Ok,
            final(self).host_spec() == old(self).host_spec(),
            final(self).port_spec() == old(self).port_spec(),
            final(self).database_spec() == old(self).database_spec(),
            final(self).username_spec() == old(self).username_spec(),
            final(self).password_spec() == old(self).password_spec(),
    {
        Ok(())
    }

    /// The secret to hand to the dump program through `PASSWORD_VARIABLE`.
    pub fn password(&self) -> (r: &'a str)
        ensures
            r@ == self.password_spec(),
    {
        self.password
    }

    /// The arguments of the dump program; they never hold the password.
    pub fn dump_arguments(&self) -> (r: Vec<String>)
        ensures
            views_of(r@) == dump_arguments_of(
                self.host_spec(),
                self.port_spec(),
                self.database_spec(),
                self.username_spec(),
            ),
    {
        proof {
            reveal_strlit("--column-inserts");
            reveal_strlit("-h");
            reveal_strlit("-p");
            reveal_strlit("-d");
            reveal_strlit("-U");
        }
        let mut args: Vec<String> = Vec::new();
        args.push(owned("--column-inserts"));
        args.push(owned("-h"));
        args.push(owned(self.host));
        args.push(owned("-p"));
        args.push(port_text(self.port));
        args.push(owned("-d"));
        args.push(owned(self.database));
        args.push(owned("-U"));
        args.push(owned(self.username));
        assert(views_of(args@) =~= dump_arguments_of(
            self.host@,
            self.port,
            self.database@,
            self.username@,
        ));
        args
    }
}

} // verus!
