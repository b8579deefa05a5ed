//! Process-wide configuration: constructed once at startup, read-only after.

use vstd::prelude::*;

verus! {

/// The immutable server configuration, shared by every component.
#[derive(Debug, Clone)]
pub struct ServerConf {
    /// Listen host for the HTTP surface.
    pub host: String,
    /// Listen port for the HTTP surface.
    pub port: u16,
    /// Directory holding the recognition engine's language data.
    pub tesseract_data: String,
    /// Recognition language used when a request names none.
    pub tesseract_default_lang: String,
    /// Path to the translation model; `None` leaves translation unconfigured.
    pub llama_model_path: Option<String>,
}

impl Default for ServerConf {
    fn default() -> (c: ServerConf)
        ensures
            c.host@ == Seq::<char>::empty(),
            c.port == 0,
            c.tesseract_data@ == Seq::<char>::empty(),
            c.tesseract_default_lang@ == Seq::<char>::empty(),
            c.llama_model_path is None,
    {
        ServerConf {
            host: String::new(),
            port: 0,
            tesseract_data: String::new(),
            tesseract_default_lang: String::new(),
            llama_model_path: None,
        }
    }
}

/// The character a decimal digit value denotes.
pub open spec fn decimal_digit(d: nat) -> char {
    if d == 0 {
        '0'
    } else if d == 1 {
        '1'
    } else if d == 2 {
        '2'
    } else if d == 3 {
        '3'
    } else if d == 4 {
        '4'
    } else if d == 5 {
        '5'
    } else if d == 6 {
        '6'
    } else if d == 7 {
        '7'
    } else if d == 8 {
        '8'
    } else {
        '9'
    }
}

/// The decimal digits of `n`, most significant first, with no leading zeros
/// except for `n == 0` itself.
pub open spec fn decimal_digits(n: nat) -> Seq<char>
    decreases n,
{
    if n < 10 {
        seq![decimal_digit(n)]
    } else {
        decimal_digits(n / 10).push(decimal_digit(n % 10))
    }
}

fn digit_str(d: u16) -> (r: &'static str)
    requires
        d < 10,
    ensures
        r@ == seq![decimal_digit(d as nat)],
{
    proof {
        reveal_strlit("0");
        reveal_strlit("1");
        reveal_strlit("2");
        reveal_strlit("3");
        reveal_strlit("4");
        reveal_strlit("5");
        reveal_strlit("6");
        reveal_strlit("7");
        reveal_strlit("8");
        reveal_strlit("9");
    }
    let r = match d {
        0 => "0",
        1 => "1",
        2 => "2",
        3 => "3",
        4 => "4",
        5 => "5",
        6 => "6",
        7 => "7",
        8 => "8",
        _ => "9",
    };
    proof {
        assert(r@ =~= seq![decimal_digit(d as nat)]);
    }
    r
}

/// Renders a port number in decimal.
pub fn u16_decimal(n: u16) -> (r: String)
    ensures
        r@ == decimal_digits(n as nat),
    decreases n,
{
    if n < 10 {
        digit_str(n).to_owned()
    } else {
        let mut s = u16_decimal(n / 10);
        s.append(digit_str(n % 10));
        proof {
            assert(s@ =~= decimal_digits(n as nat));
        }
        s
    }
}

/// The `host:port` address the server listens on.
pub fn listen_addr(conf: &ServerConf) -> (r: String)
    ensures
        r@ == conf.host@ + ":"@ + decimal_digits(conf.port as nat),
{
    let mut s = conf.host.clone();
    s.append(":");
    let p = u16_decimal(conf.port);
    s.append(p.as_str());
    proof {
        assert(s@ =~= conf.host@ + ":"@ + decimal_digits(conf.port as nat));
    }
    s
}

/// The path of the language-data artifact the default recognition language
/// requires; the process refuses to start when this file is absent.
pub fn traineddata_path(conf: &ServerConf) -> (r: String)
    ensures
        r@ == conf.tesseract_data@ + "/"@ + conf.tesseract_default_lang@ + ".traineddata"@,
{
    let mut s = conf.tesseract_data.clone();
    s.append("/");
    s.append(conf.tesseract_default_lang.as_str());
    s.append(".traineddata");
    proof {
        assert(s@ =~= conf.tesseract_data@ + "/"@ + conf.tesseract_default_lang@
            + ".traineddata"@);
    }
    s
}

} // verus!
