//! The lexer: turns grapheme clusters into groups of tokens, one group at a
//! time, and keeps count of the indentation.

use vstd::prelude::*;
use crate::error::LexicalError;
use crate::grapheme::{Grapheme, GraphemeView, grapheme_views, segment, source_graphemes};
use crate::text::{is_char, same_text};
use crate::token::{Token, TokenView};

verus! {

/// The number of spaces that make one level of indentation.
pub const INDENT_UNIT: usize = 4;

/// What one call of the lexer gives.
pub enum Lexed {
    /// Nothing is left but spaces and comments.
    End,
    Failed(LexicalError),
    /// A group of tokens, the position behind what was read for it, and the
    /// indentation level afterwards.
    Group { tokens: Seq<TokenView>, position: nat, indent: nat },
}

/// All the tokens of a text, up to its end or to the first failure.
pub struct Scanned {
    pub tokens: Seq<TokenView>,
    pub failure: Option<LexicalError>,
}

/// The views of a list of tokens, in order.
pub open spec fn token_views(tokens: Seq<Token>) -> Seq<TokenView> {
    tokens.map_values(|t: Token| t@)
}

/// The cluster at position `i` of `g` is the single character `c`.
pub open spec fn is_at(g: Seq<GraphemeView>, i: nat, c: char) -> bool {
    i < g.len() && g[i as int].text == seq![c]
}

/// How many spaces stand in a row from position `i` on.
pub open spec fn spaces(g: Seq<GraphemeView>, i: nat) -> nat
    decreases g.len() - i,
{
    if is_at(g, i, ' ') {
        1 + spaces(g, i + 1)
    } else {
        0
    }
}

/// How many clusters that begin with a digit stand in a row from `i` on.
pub open spec fn digits(g: Seq<GraphemeView>, i: nat) -> nat
    decreases g.len() - i,
{
    if i < g.len() && g[i as int].digit {
        1 + digits(g, i + 1)
    } else {
        0
    }
}

/// How many clusters that begin with a digit, and are not the decimal
/// point, stand in a row from `i` on.
pub open spec fn whole_digits(g: Seq<GraphemeView>, i: nat) -> nat
    decreases g.len() - i,
{
    if i < g.len() && !is_at(g, i, '.') && g[i as int].digit {
        1 + whole_digits(g, i + 1)
    } else {
        0
    }
}

/// How many clusters that begin with a word character stand in a row from
/// `i` on.
pub open spec fn word_run(g: Seq<GraphemeView>, i: nat) -> nat
    decreases g.len() - i,
{
    if i < g.len() && g[i as int].word {
        1 + word_run(g, i + 1)
    } else {
        0
    }
}

/// How many clusters stand from `i` on before the next line feed.
pub open spec fn comment_run(g: Seq<GraphemeView>, i: nat) -> nat
    decreases g.len() - i,
{
    if i < g.len() && !is_at(g, i, '\n') {
        1 + comment_run(g, i + 1)
    } else {
        0
    }
}

/// The characters of the clusters from position `from` up to, not
/// including, position `to`.
pub open spec fn joined(g: Seq<GraphemeView>, from: nat, to: nat) -> Seq<char>
    decreases to,
{
    if to <= from || to > g.len() {
        Seq::empty()
    } else {
        joined(g, from, (to - 1) as nat) + g[to - 1].text
    }
}

/// The token that a word stands for: a keyword, a truth value, or else an
/// identifier.
pub open spec fn word_token(text: Seq<char>) -> TokenView {
    if text == "true"@ {
        TokenView::BOOL(true)
    } else if text == "false"@ {
        TokenView::BOOL(false)
    } else if text == "or"@ {
        TokenView::OR
    } else if text == "and"@ {
        TokenView::AND
    } else if text == "not"@ {
        TokenView::NOT
    } else if text == "if"@ {
        TokenView::IF
    } else if text == "else"@ {
        TokenView::ELSE
    } else if text == "while"@ {
        TokenView::WHILE
    } else if text == "def"@ {
        TokenView::DEF
    } else if text == "return"@ {
        TokenView::RETURN
    } else {
        TokenView::ID(text)
    }
}

/// `n` times the token `token`.
pub open spec fn repeated(token: TokenView, n: nat) -> Seq<TokenView> {
    Seq::new(n, |i: int| token)
}

/// The group that a line feed gives, `start` being the position behind it.
///
/// The spaces that follow are counted. At the end of the text the group is
/// a lone `NEWLINE`. Else the count must be a multiple of the indentation
/// unit, and gives the new level: the same level gives `NEWLINE`; a deeper
/// one `NEWLINE` and an `INDENT` for each level gained; a shallower one a
/// `DEDENT` for each level lost, then `NEWLINE`.
pub open spec fn indentation(g: Seq<GraphemeView>, start: nat, level: nat) -> Lexed {
    let count = spaces(g, start);
    let stop = start + count;
    let depth = count / (INDENT_UNIT as nat);
    if stop >= g.len() {
        Lexed::Group { tokens: seq![TokenView::NEWLINE], position: stop, indent: level }
    } else if count % (INDENT_UNIT as nat) != 0 {
        Lexed::Failed(LexicalError::BadIndentation)
    } else if depth == level {
        Lexed::Group { tokens: seq![TokenView::NEWLINE], position: stop, indent: level }
    } else if depth > level {
        Lexed::Group {
            tokens: seq![TokenView::NEWLINE] + repeated(TokenView::INDENT, (depth - level) as nat),
            position: stop,
            indent: depth,
        }
    } else {
        Lexed::Group {
            tokens: repeated(TokenView::DEDENT, (level - depth) as nat) + seq![TokenView::NEWLINE],
            position: stop,
            indent: depth,
        }
    }
}

/// The number whose digits end before position `point` goes on with a
/// fraction: a decimal point stands there, and a digit behind it.
pub open spec fn has_fraction(g: Seq<GraphemeView>, point: nat) -> bool {
    is_at(g, point, '.') && point + 1 < g.len() && g[point + 1 as int].digit
}

/// The position behind the number that begins at `start`: behind its
/// digits, and behind the decimal point and the digits of its fraction if
/// it has one.
pub open spec fn number_end(g: Seq<GraphemeView>, start: nat) -> nat {
    let point = start + 1 + whole_digits(g, start + 1);
    if has_fraction(g, point) {
        point + 1 + digits(g, point + 1)
    } else {
        point
    }
}

/// The token of the number that begins at `start`: a float literal if it
/// has a fraction, else an integer literal, with its text verbatim.
pub open spec fn number_token(g: Seq<GraphemeView>, start: nat) -> TokenView {
    let point = start + 1 + whole_digits(g, start + 1);
    if has_fraction(g, point) {
        TokenView::FLOAT(joined(g, start, number_end(g, start)))
    } else {
        TokenView::INT(joined(g, start, point))
    }
}

/// A group of the one token `token`, which took the clusters up to `next`.
pub open spec fn single(token: TokenView, next: nat, level: nat) -> Lexed {
    Lexed::Group { tokens: seq![token], position: next, indent: level }
}

/// How many clusters of `g` stand at or behind `position`.
pub open spec fn remaining(g: Seq<GraphemeView>, position: nat) -> nat {
    if position <= g.len() {
        (g.len() - position) as nat
    } else {
        0
    }
}

/// The next group of tokens of `g` from `position` on, at indentation level
/// `level`.
///
/// Spaces before a token are skipped. A digit begins a number and a letter
/// a word. A line feed gives the structural tokens of the new line. `=`,
/// `<` and `>` join with a following `=`; `!` must be followed by one. A
/// `#` begins a comment, which runs up to the next line feed and gives no
/// token. Any other cluster is refused.
pub open spec fn lex(g: Seq<GraphemeView>, position: nat, level: nat) -> Lexed
    decreases remaining(g, position),
{
    let start = position + spaces(g, position);
    if start >= g.len() {
        Lexed::End
    } else {
        let c = g[start as int];
        let followed = is_at(g, start + 1, '=');
        if c.digit {
            single(number_token(g, start), number_end(g, start), level)
        } else if c.letter {
            let end = start + 1 + word_run(g, start + 1);
            single(word_token(joined(g, start, end)), end, level)
        } else if c.text == seq!['\n'] {
            indentation(g, start + 1, level)
        } else if c.text == seq!['='] {
            if followed {
                single(TokenView::EQ, start + 2, level)
            } else {
                single(TokenView::ASSIGN, start + 1, level)
            }
        } else if c.text == seq!['!'] {
            if followed {
                single(TokenView::NE, start + 2, level)
            } else {
                Lexed::Failed(LexicalError::UnrecognizedCharacter)
            }
        } else if c.text == seq!['<'] {
            if followed {
                single(TokenView::LE, start + 2, level)
            } else {
                single(TokenView::LT, start + 1, level)
            }
        } else if c.text == seq!['>'] {
            if followed {
                single(TokenView::GE, start + 2, level)
            } else {
                single(TokenView::GT, start + 1, level)
            }
        } else if c.text == seq!['+'] {
            single(TokenView::PLUS, start + 1, level)
        } else if c.text == seq!['-'] {
            single(TokenView::MINUS, start + 1, level)
        } else if c.text == seq!['*'] {
            single(TokenView::MUL, start + 1, level)
        } else if c.text == seq!['/'] {
            single(TokenView::DIV, start + 1, level)
        } else if c.text == seq!['('] {
            single(TokenView::LPAREN, start + 1, level)
        } else if c.text == seq![')'] {
            single(TokenView::RPAREN, start + 1, level)
        } else if c.text == seq![':'] {
            single(TokenView::COLON, start + 1, level)
        } else if c.text == seq![','] {
            single(TokenView::COMMA, start + 1, level)
        } else if c.text == seq!['#'] {
            lex(g, start + 1 + comment_run(g, start + 1), level)
        } else {
            Lexed::Failed(LexicalError::UnrecognizedCharacter)
        }
    }
}

/// All the tokens of `g` from `position` on: the groups one after another,
/// until the text ends or a group fails.
pub open spec fn scan_from(g: Seq<GraphemeView>, position: nat, level: nat) -> Scanned
    decreases g.len() - position,
{
    match lex(g, position, level) {
        Lexed::End => Scanned { tokens: Seq::empty(), failure: None },
        Lexed::Failed(e) => Scanned { tokens: Seq::empty(), failure: Some(e) },
        Lexed::Group { tokens, position: next, indent } => if position < next <= g.len() {
            let rest = scan_from(g, next, indent);
            Scanned { tokens: tokens + rest.tokens, failure: rest.failure }
        } else {
            Scanned { tokens, failure: None }
        },
    }
}

/// Every group takes at least one cluster, and none beyond the end.
pub proof fn lemma_lex_advances(g: Seq<GraphemeView>, position: nat, level: nat)
    requires
        position <= g.len(),
    ensures
        lex(g, position, level) matches Lexed::Group { position: next, .. } ==> position < next
            <= g.len(),
    decreases remaining(g, position),
{
    lemma_runs_end(g, position);
    let start = position + spaces(g, position);
    if start < g.len() {
        lemma_runs_end(g, start + 1);
        let c = g[start as int];
        let point = start + 1 + whole_digits(g, start + 1);
        if point < g.len() {
            lemma_runs_end(g, point + 1);
        }
        if !c.digit && !c.letter && c.text == seq!['#'] {
            lemma_lex_advances(g, start + 1 + comment_run(g, start + 1), level);
        }
    }
}

/// A run that starts within the text ends within it.
pub proof fn lemma_runs_end(g: Seq<GraphemeView>, i: nat)
    requires
        i <= g.len(),
    ensures
        i + spaces(g, i) <= g.len(),
        i + digits(g, i) <= g.len(),
        i + whole_digits(g, i) <= g.len(),
        i + word_run(g, i) <= g.len(),
        i + comment_run(g, i) <= g.len(),
    decreases g.len() - i,
{
    if i < g.len() {
        lemma_runs_end(g, i + 1);
    }
}

/// A lexer over the clusters of one source text. It reads forward only.
pub struct Lexer {
    input: Vec<Grapheme>,
    position: usize,
    indent_level: usize,
}

impl Lexer {
    /// The clusters of the text.
    pub closed spec fn graphemes(&self) -> Seq<GraphemeView> {
        grapheme_views(self.input@)
    }

    /// How many clusters have been read.
    pub closed spec fn position(&self) -> nat {
        self.position as nat
    }

    /// The indentation level of the line being read.
    pub closed spec fn level(&self) -> nat {
        self.indent_level as nat
    }

    /// The position lies within the text.
    pub open spec fn wf(&self) -> bool {
        self.position() <= self.graphemes().len()
    }

    /// A lexer at the start of `input`, at indentation level zero.
    pub fn new(input: &str) -> (r: Lexer)
        ensures
            r.wf(),
            r.graphemes() == source_graphemes(input@),
            r.position() == 0,
            r.level() == 0,
    {
        Lexer { input: segment(input), position: 0, indent_level: 0 }
    }

    /// A lexer at the start of clusters that are already cut and tested.
    pub fn from_graphemes(input: Vec<Grapheme>) -> (r: Lexer)
        ensures
            r.wf(),
            r.graphemes() == grapheme_views(input@),
            r.position() == 0,
            r.level() == 0,
    {
        Lexer { input, position: 0, indent_level: 0 }
    }

    /// Tells whether the cluster at the current position is the character
    /// `c`.
    fn peek_is(&self, c: char) -> (r: bool)
        requires
            self.wf(),
        ensures
            r == is_at(self.graphemes(), self.position(), c),
    {
        if self.position < self.input.len() {
            is_char(self.input[self.position].text.as_str(), c)
        } else {
            false
        }
    }

    /// Moves past the cluster at the current position and returns it.
    fn advance(&mut self) -> (r: &Grapheme)
        requires
            old(self).wf(),
            old(self).position() < old(self).graphemes().len(),
        ensures
            final(self).wf(),
            final(self).graphemes() == old(self).graphemes(),
            final(self).level() == old(self).level(),
            final(self).position() == old(self).position() + 1,
            r@ == old(self).graphemes()[old(self).position() as int],
    {
        assert(self.graphemes().len() == self.input.len());
        self.position = self.position + 1;
        &self.input[self.position - 1]
    }

    /// Moves past the spaces at the current position.
    fn whitespace(&mut self)
        requires
            old(self).wf(),
        ensures
            final(self).wf(),
            final(self).graphemes() == old(self).graphemes(),
            final(self).level() == old(self).level(),
            final(self).position() == old(self).position() + spaces(
                old(self).graphemes(),
                old(self).position(),
            ),
    {
        while self.peek_is(' ')
            invariant
                self.wf(),
                self.graphemes() == old(self).graphemes(),
                self.level() == old(self).level(),
                old(self).position() <= self.position(),
                old(self).position() + spaces(old(self).graphemes(), old(self).position())
                    == self.position() + spaces(self.graphemes(), self.position()),
            decreases self.input.len() - self.position,
        {
            let _ = self.advance();
        }
    }

    /// Reads the structural tokens of a new line. The line feed has been
    /// read already.
    fn indent(&mut self) -> (r: Result<Vec<Token>, LexicalError>)
        requires
            old(self).wf(),
        ensures
            final(self).wf(),
            final(self).graphemes() == old(self).graphemes(),
            match indentation(old(self).graphemes(), old(self).position(), old(self).level()) {
                Lexed::Group { tokens, position, indent } => r matches Ok(v) && token_views(v@)
                    == tokens && final(self).position() == position && final(self).level()
                    == indent,
                Lexed::Failed(e) => r == Err::<Vec<Token>, LexicalError>(e) && final(self).level()
                    == old(self).level(),
                Lexed::End => false,
            },
    {
        let start = self.position;
        self.whitespace();
        let count = self.position - start;
        let mut tokens: Vec<Token> = Vec::new();
        if self.position >= self.input.len() {
            tokens.push(Token::NEWLINE);
            proof {
                assert(token_views(tokens@) =~= seq![TokenView::NEWLINE]);
            }
            return Ok(tokens);
        }
        if count % INDENT_UNIT != 0 {
            return Err(LexicalError::BadIndentation);
        }
        let depth = count / INDENT_UNIT;
        let level = self.indent_level;
        if depth == level {
            tokens.push(Token::NEWLINE);
            proof {
                assert(token_views(tokens@) =~= seq![TokenView::NEWLINE]);
            }
        } else if depth > level {
            tokens.push(Token::NEWLINE);
            proof {
                assert(token_views(tokens@) =~= seq![TokenView::NEWLINE] + repeated(
                    TokenView::INDENT,
                    0,
                ));
            }
            let mut k: usize = level;
            while k < depth
                invariant
                    level <= k <= depth,
                    token_views(tokens@) =~= seq![TokenView::NEWLINE] + repeated(
                        TokenView::INDENT,
                        (k - level) as nat,
                    ),
                decreases depth - k,
            {
                let ghost before = tokens@;
                tokens.push(Token::INDENT);
                proof {
                    assert(token_views(tokens@) =~= token_views(before).push(TokenView::INDENT));
                    assert(repeated(TokenView::INDENT, (k + 1 - level) as nat) =~= repeated(
                        TokenView::INDENT,
                        (k - level) as nat,
                    ).push(TokenView::INDENT));
                }
                k += 1;
            }
            self.indent_level = depth;
        } else {
            proof {
                assert(token_views(tokens@) =~= repeated(TokenView::DEDENT, 0));
            }
            let mut k: usize = depth;
            while k < level
                invariant
                    depth <= k <= level,
                    token_views(tokens@) =~= repeated(TokenView::DEDENT, (k - depth) as nat),
                decreases level - k,
            {
                let ghost before = tokens@;
                tokens.push(Token::DEDENT);
                proof {
                    assert(token_views(tokens@) =~= token_views(before).push(TokenView::DEDENT));
                    assert(repeated(TokenView::DEDENT, (k + 1 - depth) as nat) =~= repeated(
                        TokenView::DEDENT,
                        (k - depth) as nat,
                    ).push(TokenView::DEDENT));
                }
                k += 1;
            }
            let ghost before = tokens@;
            tokens.push(Token::NEWLINE);
            proof {
                assert(token_views(tokens@) =~= token_views(before).push(TokenView::NEWLINE));
                assert(token_views(tokens@) =~= repeated(
                    TokenView::DEDENT,
                    (level - depth) as nat,
                ) + seq![TokenView::NEWLINE]);
            }
            self.indent_level = depth;
        }
        Ok(tokens)
    }

    /// Reads a number. Its first cluster, at `start`, has been read
    /// already.
    fn number(&mut self, start: usize) -> (r: Token)
        requires
            old(self).wf(),
            old(self).position() == start + 1,
        ensures
            final(self).wf(),
            final(self).graphemes() == old(self).graphemes(),
            final(self).level() == old(self).level(),
            final(self).position() == number_end(old(self).graphemes(), start as nat),
            r@ == number_token(old(self).graphemes(), start as nat),
    {
        let ghost g = self.graphemes();
        let mut number = self.input[start].text.clone();
        proof {
            assert(joined(g, start as nat, start as nat) =~= Seq::<char>::empty());
            assert(number@ =~= joined(g, start as nat, (start + 1) as nat));
        }
        while self.position < self.input.len() && !self.peek_is('.')
            && self.input[self.position].digit
            invariant
                self.wf(),
                g == self.graphemes(),
                g == old(self).graphemes(),
                self.level() == old(self).level(),
                start < self.position(),
                start + 1 + whole_digits(g, (start + 1) as nat) == self.position() + whole_digits(
                    g,
                    self.position(),
                ),
                number@ == joined(g, start as nat, self.position()),
            decreases self.input.len() - self.position,
        {
            let cluster = self.advance();
            number.append(cluster.text.as_str());
        }
        let mut fraction = false;
        if self.peek_is('.') {
            assert(self.graphemes().len() == self.input.len());
            if self.position + 1 < self.input.len() {
                fraction = self.input[self.position + 1].digit;
            }
        }
        if fraction {
            let point = self.advance();
            number.append(point.text.as_str());
            let ghost after = self.position();
            while self.position < self.input.len() && self.input[self.position].digit
                invariant
                    self.wf(),
                    g == self.graphemes(),
                    g == old(self).graphemes(),
                    self.level() == old(self).level(),
                    start < self.position(),
                    after <= self.position(),
                    after + digits(g, after) == self.position() + digits(g, self.position()),
                    number@ == joined(g, start as nat, self.position()),
                decreases self.input.len() - self.position,
            {
                let cluster = self.advance();
                number.append(cluster.text.as_str());
            }
            Token::FLOAT(number)
        } else {
            Token::INT(number)
        }
    }

    /// Reads a word and tells which token it is. Its first cluster, at
    /// `start`, has been read already.
    fn id(&mut self, start: usize) -> (r: Token)
        requires
            old(self).wf(),
            old(self).position() == start + 1,
        ensures
            final(self).wf(),
            final(self).graphemes() == old(self).graphemes(),
            final(self).level() == old(self).level(),
            final(self).position() == start + 1 + word_run(
                old(self).graphemes(),
                (start + 1) as nat,
            ),
            r@ == word_token(joined(old(self).graphemes(), start as nat, final(self).position())),
    {
        let ghost g = self.graphemes();
        let mut id = self.input[start].text.clone();
        proof {
            assert(joined(g, start as nat, start as nat) =~= Seq::<char>::empty());
            assert(id@ =~= joined(g, start as nat, (start + 1) as nat));
        }
        while self.position < self.input.len() && self.input[self.position].word
            invariant
                self.wf(),
                g == self.graphemes(),
                g == old(self).graphemes(),
                self.level() == old(self).level(),
                start < self.position(),
                start + 1 + word_run(g, (start + 1) as nat) == self.position() + word_run(
                    g,
                    self.position(),
                ),
                id@ == joined(g, start as nat, self.position()),
            decreases self.input.len() - self.position,
        {
            let cluster = self.advance();
            id.append(cluster.text.as_str());
        }
        if same_text(id.as_str(), "true") {
            Token::BOOL(true)
        } else if same_text(id.as_str(), "false") {
            Token::BOOL(false)
        } else if same_text(id.as_str(), "or") {
            Token::OR
        } else if same_text(id.as_str(), "and") {
            Token::AND
        } else if same_text(id.as_str(), "not") {
            Token::NOT
        } else if same_text(id.as_str(), "if") {
            Token::IF
        } else if same_text(id.as_str(), "else") {
            Token::ELSE
        } else if same_text(id.as_str(), "while") {
            Token::WHILE
        } else if same_text(id.as_str(), "def") {
            Token::DEF
        } else if same_text(id.as_str(), "return") {
            Token::RETURN
        } else {
            Token::ID(id)
        }
    }

    /// Moves past a comment: up to the next line feed, which stays.
    fn comment(&mut self)
        requires
            old(self).wf(),
        ensures
            final(self).wf(),
            final(self).graphemes() == old(self).graphemes(),
            final(self).level() == old(self).level(),
            final(self).position() == old(self).position() + comment_run(
                old(self).graphemes(),
                old(self).position(),
            ),
    {
        while self.position < self.input.len() && !self.peek_is('\n')
            invariant
                self.wf(),
                self.graphemes() == old(self).graphemes(),
                self.level() == old(self).level(),
                old(self).position() <= self.position(),
                old(self).position() + comment_run(old(self).graphemes(), old(self).position())
                    == self.position() + comment_run(self.graphemes(), self.position()),
            decreases self.input.len() - self.position,
        {
            let _ = self.advance();
        }
    }

    fn one(token: Token) -> (r: Vec<Token>)
        ensures
            token_views(r@) == seq![token@],
    {
        let mut r: Vec<Token> = Vec::new();
        r.push(token);
        proof {
            assert(token_views(r@) =~= seq![token@]);
        }
        r
    }

    fn pair(&mut self, joint: Token, alone: Option<Token>) -> (r: Result<Vec<Token>, LexicalError>)
        requires
            old(self).wf(),
        ensures
            final(self).wf(),
            final(self).graphemes() == old(self).graphemes(),
            final(self).level() == old(self).level(),
            is_at(old(self).graphemes(), old(self).position(), '=') ==> (r matches Ok(v)
                && token_views(v@) == seq![joint@] && final(self).position() == old(
                self).position() + 1),
            !is_at(old(self).graphemes(), old(self).position(), '=') ==> (final(self).position()
                == old(self).position() && match alone {
                Some(token) => r matches Ok(v) && token_views(v@) == seq![token@],
                None => r == Err::<Vec<Token>, LexicalError>(LexicalError::UnrecognizedCharacter),
            }),
    {
        if self.peek_is('=') {
            let _ = self.advance();
            Ok(Self::one(joint))
        } else {
            match alone {
                Some(token) => Ok(Self::one(token)),
                None => Err(LexicalError::UnrecognizedCharacter),
            }
        }
    }

    /// Reads the next group of tokens, wherever a failure may leave the
    /// position.
    fn group(&mut self) -> (r: Result<Option<Vec<Token>>, LexicalError>)
        requires
            old(self).wf(),
        ensures
            final(self).wf(),
            final(self).graphemes() == old(self).graphemes(),
            match lex(old(self).graphemes(), old(self).position(), old(self).level()) {
                Lexed::End => r == Ok::<Option<Vec<Token>>, LexicalError>(None) && final(
                    self).level() == old(self).level() && final(self).position() == old(
                    self).graphemes().len(),
                Lexed::Failed(e) => r == Err::<Option<Vec<Token>>, LexicalError>(e) && final(
                    self).level() == old(self).level(),
                Lexed::Group { tokens, position, indent } => r matches Ok(Some(v)) && token_views(
                    v@,
                ) == tokens && final(self).position() == position && final(self).level()
                    == indent,
            },
        decreases old(self).graphemes().len() - old(self).position(),
    {
        let ghost g = self.graphemes();
        proof {
            lemma_runs_end(g, self.position());
        }
        self.whitespace();
        if self.position >= self.input.len() {
            return Ok(None);
        }
        let start = self.position;
        let cluster = self.advance();
        let digit = cluster.digit;
        let letter = cluster.letter;
        let text: &str = cluster.text.as_str();
        if digit {
            let token = self.number(start);
            Ok(Some(Self::one(token)))
        } else if letter {
            let token = self.id(start);
            Ok(Some(Self::one(token)))
        } else if is_char(text, '\n') {
            match self.indent() {
                Ok(tokens) => Ok(Some(tokens)),
                Err(e) => Err(e),
            }
        } else if is_char(text, '=') {
            match self.pair(Token::EQ, Some(Token::ASSIGN)) {
                Ok(tokens) => Ok(Some(tokens)),
                Err(e) => Err(e),
            }
        } else if is_char(text, '!') {
            match self.pair(Token::NE, None) {
                Ok(tokens) => Ok(Some(tokens)),
                Err(e) => Err(e),
            }
        } else if is_char(text, '<') {
            match self.pair(Token::LE, Some(Token::LT)) {
                Ok(tokens) => Ok(Some(tokens)),
                Err(e) => Err(e),
            }
        } else if is_char(text, '>') {
            match self.pair(Token::GE, Some(Token::GT)) {
                Ok(tokens) => Ok(Some(tokens)),
                Err(e) => Err(e),
            }
        } else if is_char(text, '+') {
            Ok(Some(Self::one(Token::PLUS)))
        } else if is_char(text, '-') {
            Ok(Some(Self::one(Token::MINUS)))
        } else if is_char(text, '*') {
            Ok(Some(Self::one(Token::MUL)))
        } else if is_char(text, '/') {
            Ok(Some(Self::one(Token::DIV)))
        } else if is_char(text, '(') {
            Ok(Some(Self::one(Token::LPAREN)))
        } else if is_char(text, ')') {
            Ok(Some(Self::one(Token::RPAREN)))
        } else if is_char(text, ':') {
            Ok(Some(Self::one(Token::COLON)))
        } else if is_char(text, ',') {
            Ok(Some(Self::one(Token::COMMA)))
        } else if is_char(text, '#') {
            self.comment();
            proof {
                lemma_runs_end(g, (start + 1) as nat);
            }
            self.group()
        } else {
            Err(LexicalError::UnrecognizedCharacter)
        }
    }

    /// Reads the next group of tokens. Nothing is returned once the text is
    /// read to its end. A failure is final: it leaves the lexer where it
    /// was, so that every later call fails alike.
    pub fn next(&mut self) -> (r: Result<Option<Vec<Token>>, LexicalError>)
        requires
            old(self).wf(),
        ensures
            final(self).wf(),
            final(self).graphemes() == old(self).graphemes(),
            match lex(old(self).graphemes(), old(self).position(), old(self).level()) {
                Lexed::End => r == Ok::<Option<Vec<Token>>, LexicalError>(None) && final(
                    self).level() == old(self).level() && final(self).position() == old(
                    self).graphemes().len(),
                Lexed::Failed(e) => r == Err::<Option<Vec<Token>>, LexicalError>(e) && final(
                    self).level() == old(self).level() && final(self).position() == old(
                    self).position(),
                Lexed::Group { tokens, position, indent } => r matches Ok(Some(v)) && token_views(
                    v@,
                ) == tokens && final(self).position() == position && final(self).level()
                    == indent,
            },
    {
        let start = self.position;
        match self.group() {
            Ok(group) => Ok(group),
            Err(e) => {
                self.position = start;
                Err(e)
            },
        }
    }

    /// Reads all the groups that are left: their tokens one after another,
    /// and the failure that ended them if there was one.
    pub fn drain(&mut self) -> (r: (Vec<Token>, Option<LexicalError>))
        requires
            old(self).wf(),
        ensures
            final(self).wf(),
            final(self).graphemes() == old(self).graphemes(),
            token_views(r.0@) == scan_from(
                old(self).graphemes(),
                old(self).position(),
                old(self).level(),
            ).tokens,
            r.1 == scan_from(old(self).graphemes(), old(self).position(), old(self).level()).failure,
    {
        let ghost g = self.graphemes();
        let ghost whole = scan_from(g, self.position(), self.level());
        let mut tokens: Vec<Token> = Vec::new();
        let mut failure: Option<LexicalError> = None;
        let mut open = true;
        while open
            invariant
                self.wf(),
                self.graphemes() == g,
                open ==> whole.tokens =~= token_views(tokens@) + scan_from(
                    g,
                    self.position(),
                    self.level(),
                ).tokens,
                open ==> whole.failure == scan_from(g, self.position(), self.level()).failure,
                open ==> failure is None,
                !open ==> whole.tokens =~= token_views(tokens@) && whole.failure == failure,
            decreases (if open { 1nat } else { 0nat }), g.len() - self.position(),
        {
            let ghost before = tokens@;
            let ghost here = self.position();
            proof {
                lemma_lex_advances(g, self.position(), self.level());
            }
            match self.next() {
                Ok(Some(group)) => {
                    let mut group = group;
                    let ghost added = token_views(group@);
                    tokens.append(&mut group);
                    proof {
                        assert(token_views(tokens@) =~= token_views(before) + added);
                    }
                },
                Ok(None) => {
                    open = false;
                    proof {
                        assert(token_views(tokens@) + Seq::<TokenView>::empty() =~= token_views(
                            tokens@,
                        ));
                    }
                },
                Err(e) => {
                    failure = Some(e);
                    open = false;
                    proof {
                        assert(token_views(tokens@) + Seq::<TokenView>::empty() =~= token_views(
                            tokens@,
                        ));
                    }
                },
            }
        }
        (tokens, failure)
    }
}

} // verus!
