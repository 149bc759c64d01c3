use vstd::prelude::*;

use crate::ast::context::node_of;

use crate::ast::context::Shared;
use crate::ast::types::{ListValue, ObjectField, ObjectValue, Recoverable, Value};

use super::measurer::Measurer;
use super::types::{fold, formatted, indent_close_step, indent_open_step, indented, lines_step};
use super::types::{lemma_fails_then, lemma_fold_fails, lemma_fold_next, lemma_squeezed, lemma_step_on};
use super::types::{lemma_steps_end, lemma_then, nothing, squeezed, squeezed_push_step, steps, then};
use super::types::{Error, Format, Formatter, Shape, Write, Writes};

verus! {

/// A list on one line: its values separated by commas, in brackets.
pub open spec fn list_value_collapsed(n: ListValue, sh: Shape) -> (Writes, Shape)
    decreases n, 0nat,
{
    let s1 = formatted(&n.brackets.0, sh);
    let s2 = squeezed(s1.1, values_comma(n.values.0@, s1.1.with_whitespace(true)));
    let s3 = squeezed(s2.1, formatted(&n.brackets.1, s2.1.with_whitespace(true)));
    then(then(s1, s2), s3)
}

fn format_list_value_collapsed<W: Write>(n: &ListValue, formatter: &mut Formatter<W>) -> (r: Result<(), Error>)
    ensures
        final(formatter).outcome(r) == steps::<W>(old(formatter).model(), list_value_collapsed(*n, old(formatter).shape())),
    decreases n, 0nat,
{
    let ghost node = *n;
    let ghost m0 = formatter.model();
    let ghost sh0 = formatter.shape();
    let ghost s1 = formatted(&node.brackets.0, sh0);
    let ghost s2 = squeezed(s1.1, values_comma(node.values.0@, s1.1.with_whitespace(true)));
    let ghost s3 = squeezed(s2.1, formatted(&node.brackets.1, s2.1.with_whitespace(true)));
    let ghost a1 = s1;
    let ghost a2 = then(a1, s2);
    let ghost a3 = then(a2, s3);
    assert(list_value_collapsed(*n, sh0) == a3);
    let r = n.brackets.0.format(formatter);
    if r.is_err() {
        proof {
            lemma_fails_then::<W>(m0, a1, s2);
            lemma_fails_then::<W>(m0, a2, s3);
        }
        return r;
    }
    proof {
        lemma_step_on::<W>(m0, a1, s2);
    }
    let r = {
        let ghost mq1 = formatter.model();
        let ghost shq2 = formatter.shape();
        let ws = formatter.begin_squeeze();
        let r = format_values_comma(&n.values.0, formatter);
        formatter.end_squeeze(ws);
        proof {
            lemma_squeezed::<W>(mq1, shq2, values_comma(node.values.0@, shq2.with_whitespace(true)));
        }
        r
    };
    if r.is_err() {
        proof {
            lemma_fails_then::<W>(m0, a2, s3);
        }
        return r;
    }
    proof {
        lemma_step_on::<W>(m0, a2, s3);
    }
    {
        let ghost mq3 = formatter.model();
        let ghost shq4 = formatter.shape();
        let ws = formatter.begin_squeeze();
        let r = n.brackets.1.format(formatter);
        formatter.end_squeeze(ws);
        proof {
            lemma_squeezed::<W>(mq3, shq4, formatted(&node.brackets.1, shq4.with_whitespace(true)));
        }
        r
    }
}

/// A list broken over lines: its values indented, one per line when one of them must be broken up.
pub open spec fn list_value_expanded(n: ListValue, sh: Shape) -> (Writes, Shape)
    decreases n, 0nat,
{
    let s1 = formatted(&n.brackets.0, sh);
    let s2 = if values_any_expand(n.values.0@) { indented(s1.1, values_line_comma(n.values.0@, indent_open_step(s1.1).1)) } else { indented(s1.1, values_comma(n.values.0@, indent_open_step(s1.1).1)) };
    let s3 = squeezed(s2.1, formatted(&n.brackets.1, s2.1.with_whitespace(true)));
    then(then(s1, s2), s3)
}

fn format_list_value_expanded<W: Write>(n: &ListValue, formatter: &mut Formatter<W>) -> (r: Result<(), Error>)
    ensures
        final(formatter).outcome(r) == steps::<W>(old(formatter).model(), list_value_expanded(*n, old(formatter).shape())),
    decreases n, 0nat,
{
    let ghost node = *n;
    let ghost m0 = formatter.model();
    let ghost sh0 = formatter.shape();
    let ghost s1 = formatted(&node.brackets.0, sh0);
    let ghost s2 = if values_any_expand(node.values.0@) { indented(s1.1, values_line_comma(node.values.0@, indent_open_step(s1.1).1)) } else { indented(s1.1, values_comma(node.values.0@, indent_open_step(s1.1).1)) };
    let ghost s3 = squeezed(s2.1, formatted(&node.brackets.1, s2.1.with_whitespace(true)));
    let ghost a1 = s1;
    let ghost a2 = then(a1, s2);
    let ghost a3 = then(a2, s3);
    assert(list_value_expanded(*n, sh0) == a3);
    let r = n.brackets.0.format(formatter);
    if r.is_err() {
        proof {
            lemma_fails_then::<W>(m0, a1, s2);
            lemma_fails_then::<W>(m0, a2, s3);
        }
        return r;
    }
    proof {
        lemma_step_on::<W>(m0, a1, s2);
    }
    let r = if values_any_expand_exec(&n.values.0) {
        {
            let ghost mi5 = formatter.model();
            let ghost shi6 = formatter.shape();
            let ghost open7 = indent_open_step(shi6);
            let ghost body8 = values_line_comma(node.values.0@, indent_open_step(shi6).1);
            let ghost close9 = indent_close_step(body8.1);
            let r = formatter.open_indent();
            if r.is_err() {
                proof {
                    lemma_fails_then::<W>(mi5, open7, body8);
                    lemma_fails_then::<W>(mi5, then(open7, body8), close9);
                }
                r
            } else {
                proof {
                    lemma_step_on::<W>(mi5, open7, body8);
                }
                let r = format_values_line_comma(&n.values.0, formatter);
                if r.is_err() {
                    proof {
                        lemma_fails_then::<W>(mi5, then(open7, body8), close9);
                    }
                    r
                } else {
                    proof {
                        lemma_step_on::<W>(mi5, then(open7, body8), close9);
                    }
                    formatter.close_indent()
                }
            }
        }
    } else {
        {
            let ghost mi10 = formatter.model();
            let ghost shi11 = formatter.shape();
            let ghost open12 = indent_open_step(shi11);
            let ghost body13 = values_comma(node.values.0@, indent_open_step(shi11).1);
            let ghost close14 = indent_close_step(body13.1);
            let r = formatter.open_indent();
            if r.is_err() {
                proof {
                    lemma_fails_then::<W>(mi10, open12, body13);
                    lemma_fails_then::<W>(mi10, then(open12, body13), close14);
                }
                r
            } else {
                proof {
                    lemma_step_on::<W>(mi10, open12, body13);
                }
                let r = format_values_comma(&n.values.0, formatter);
                if r.is_err() {
                    proof {
                        lemma_fails_then::<W>(mi10, then(open12, body13), close14);
                    }
                    r
                } else {
                    proof {
                        lemma_step_on::<W>(mi10, then(open12, body13), close14);
                    }
                    formatter.close_indent()
                }
            }
        }
    };
    if r.is_err() {
        proof {
            lemma_fails_then::<W>(m0, a2, s3);
        }
        return r;
    }
    proof {
        lemma_step_on::<W>(m0, a2, s3);
    }
    {
        let ghost mq15 = formatter.model();
        let ghost shq16 = formatter.shape();
        let ws = formatter.begin_squeeze();
        let r = n.brackets.1.format(formatter);
        formatter.end_squeeze(ws);
        proof {
            lemma_squeezed::<W>(mq15, shq16, formatted(&node.brackets.1, shq16.with_whitespace(true)));
        }
        r
    }
}

/// An object on one line: its fields one after another, in braces.
pub open spec fn object_value_collapsed(n: ObjectValue, sh: Shape) -> (Writes, Shape)
    decreases n, 0nat,
{
    let s1 = formatted(&n.braces.0, sh);
    let s2 = fields_each(n.object_fields.0@, s1.1);
    let s3 = formatted(&n.braces.1, s2.1);
    then(then(s1, s2), s3)
}

fn format_object_value_collapsed<W: Write>(n: &ObjectValue, formatter: &mut Formatter<W>) -> (r: Result<(), Error>)
    ensures
        final(formatter).outcome(r) == steps::<W>(old(formatter).model(), object_value_collapsed(*n, old(formatter).shape())),
    decreases n, 0nat,
{
    let ghost node = *n;
    let ghost m0 = formatter.model();
    let ghost sh0 = formatter.shape();
    let ghost s1 = formatted(&node.braces.0, sh0);
    let ghost s2 = fields_each(node.object_fields.0@, s1.1);
    let ghost s3 = formatted(&node.braces.1, s2.1);
    let ghost a1 = s1;
    let ghost a2 = then(a1, s2);
    let ghost a3 = then(a2, s3);
    assert(object_value_collapsed(*n, sh0) == a3);
    let r = n.braces.0.format(formatter);
    if r.is_err() {
        proof {
            lemma_fails_then::<W>(m0, a1, s2);
            lemma_fails_then::<W>(m0, a2, s3);
        }
        return r;
    }
    proof {
        lemma_step_on::<W>(m0, a1, s2);
    }
    let r = format_fields_each(&n.object_fields.0, formatter);
    if r.is_err() {
        proof {
            lemma_fails_then::<W>(m0, a2, s3);
        }
        return r;
    }
    proof {
        lemma_step_on::<W>(m0, a2, s3);
    }
    n.braces.1.format(formatter)
}

/// An object broken over lines: its fields indented, one per line, each followed by a comma.
pub open spec fn object_value_expanded(n: ObjectValue, sh: Shape) -> (Writes, Shape)
    decreases n, 0nat,
{
    let s1 = formatted(&n.braces.0, sh);
    let s2 = indented(s1.1, fields_line_comma(n.object_fields.0@, indent_open_step(s1.1).1));
    let s3 = formatted(&n.braces.1, s2.1);
    then(then(s1, s2), s3)
}

fn format_object_value_expanded<W: Write>(n: &ObjectValue, formatter: &mut Formatter<W>) -> (r: Result<(), Error>)
    ensures
        final(formatter).outcome(r) == steps::<W>(old(formatter).model(), object_value_expanded(*n, old(formatter).shape())),
    decreases n, 0nat,
{
    let ghost node = *n;
    let ghost m0 = formatter.model();
    let ghost sh0 = formatter.shape();
    let ghost s1 = formatted(&node.braces.0, sh0);
    let ghost s2 = indented(s1.1, fields_line_comma(node.object_fields.0@, indent_open_step(s1.1).1));
    let ghost s3 = formatted(&node.braces.1, s2.1);
    let ghost a1 = s1;
    let ghost a2 = then(a1, s2);
    let ghost a3 = then(a2, s3);
    assert(object_value_expanded(*n, sh0) == a3);
    let r = n.braces.0.format(formatter);
    if r.is_err() {
        proof {
            lemma_fails_then::<W>(m0, a1, s2);
            lemma_fails_then::<W>(m0, a2, s3);
        }
        return r;
    }
    proof {
        lemma_step_on::<W>(m0, a1, s2);
    }
    let r = {
        let ghost mi17 = formatter.model();
        let ghost shi18 = formatter.shape();
        let ghost open19 = indent_open_step(shi18);
        let ghost body20 = fields_line_comma(node.object_fields.0@, indent_open_step(shi18).1);
        let ghost close21 = indent_close_step(body20.1);
        let r = formatter.open_indent();
        if r.is_err() {
            proof {
                lemma_fails_then::<W>(mi17, open19, body20);
                lemma_fails_then::<W>(mi17, then(open19, body20), close21);
            }
            r
        } else {
            proof {
                lemma_step_on::<W>(mi17, open19, body20);
            }
            let r = format_fields_line_comma(&n.object_fields.0, formatter);
            if r.is_err() {
                proof {
                    lemma_fails_then::<W>(mi17, then(open19, body20), close21);
                }
                r
            } else {
                proof {
                    lemma_step_on::<W>(mi17, then(open19, body20), close21);
                }
                formatter.close_indent()
            }
        }
    };
    if r.is_err() {
        proof {
            lemma_fails_then::<W>(m0, a2, s3);
        }
        return r;
    }
    proof {
        lemma_step_on::<W>(m0, a2, s3);
    }
    n.braces.1.format(formatter)
}

/// An object field: its name, a colon with no space before it, and its value.
pub open spec fn object_field_collapsed(n: ObjectField, sh: Shape) -> (Writes, Shape)
    decreases n, 0nat,
{
    let s1 = formatted(&n.name, sh);
    let s2 = squeezed(s1.1, formatted(&n.colon, s1.1.with_whitespace(true)));
    let s3 = match n.value { Recoverable::Present(x) => value_formatted(*x.0, s2.1), Recoverable::Missing(_) => nothing(s2.1) };
    then(then(s1, s2), s3)
}

fn format_object_field_collapsed<W: Write>(n: &ObjectField, formatter: &mut Formatter<W>) -> (r: Result<(), Error>)
    ensures
        final(formatter).outcome(r) == steps::<W>(old(formatter).model(), object_field_collapsed(*n, old(formatter).shape())),
    decreases n, 0nat,
{
    let ghost node = *n;
    let ghost m0 = formatter.model();
    let ghost sh0 = formatter.shape();
    let ghost s1 = formatted(&node.name, sh0);
    let ghost s2 = squeezed(s1.1, formatted(&node.colon, s1.1.with_whitespace(true)));
    let ghost s3 = match node.value { Recoverable::Present(x) => value_formatted(node_of(x), s2.1), Recoverable::Missing(_) => nothing(s2.1) };
    let ghost a1 = s1;
    let ghost a2 = then(a1, s2);
    let ghost a3 = then(a2, s3);
    assert(object_field_collapsed(*n, sh0) == a3);
    let r = n.name.format(formatter);
    if r.is_err() {
        proof {
            lemma_fails_then::<W>(m0, a1, s2);
            lemma_fails_then::<W>(m0, a2, s3);
        }
        return r;
    }
    proof {
        lemma_step_on::<W>(m0, a1, s2);
    }
    let r = {
        let ghost mq22 = formatter.model();
        let ghost shq23 = formatter.shape();
        let ws = formatter.begin_squeeze();
        let r = n.colon.format(formatter);
        formatter.end_squeeze(ws);
        proof {
            lemma_squeezed::<W>(mq22, shq23, formatted(&node.colon, shq23.with_whitespace(true)));
        }
        r
    };
    if r.is_err() {
        proof {
            lemma_fails_then::<W>(m0, a2, s3);
        }
        return r;
    }
    proof {
        lemma_step_on::<W>(m0, a2, s3);
    }
    match &n.value {
        Recoverable::Present(x) => format_value(&*x.0, formatter),
        Recoverable::Missing(_) => Ok(()),
    }
}

/// How a value is laid out on one line.
pub open spec fn value_collapsed(v: Value, sh: Shape) -> (Writes, Shape)
    decreases v, 1nat,
{
    match v {
        Value::Variable(x) => x.collapsed(sh),
        Value::IntValue(x) => x.collapsed(sh),
        Value::FloatValue(x) => x.collapsed(sh),
        Value::StringValue(x) => x.collapsed(sh),
        Value::BooleanValue(x) => x.collapsed(sh),
        Value::NullValue(x) => x.collapsed(sh),
        Value::EnumValue(x) => x.collapsed(sh),
        Value::ListValue(x) => list_value_collapsed(x, sh),
        Value::ObjectValue(x) => object_value_collapsed(x, sh),
    }
}

/// How a value is laid out broken over lines.
pub open spec fn value_expanded(v: Value, sh: Shape) -> (Writes, Shape)
    decreases v, 1nat,
{
    match v {
        Value::Variable(x) => x.expanded(sh),
        Value::IntValue(x) => x.expanded(sh),
        Value::FloatValue(x) => x.expanded(sh),
        Value::StringValue(x) => x.expanded(sh),
        Value::BooleanValue(x) => x.expanded(sh),
        Value::NullValue(x) => x.expanded(sh),
        Value::EnumValue(x) => x.expanded(sh),
        Value::ListValue(x) => list_value_expanded(x, sh),
        Value::ObjectValue(x) => object_value_expanded(x, sh),
    }
}

/// Whether a value must be broken over lines: a list holding such a value,
/// or an object of more than one field.
pub open spec fn value_expands(v: Value) -> bool
    decreases v, 1nat,
{
    match v {
        Value::Variable(x) => x.spec_expands(),
        Value::IntValue(x) => x.spec_expands(),
        Value::FloatValue(x) => x.spec_expands(),
        Value::StringValue(x) => x.spec_expands(),
        Value::BooleanValue(x) => x.spec_expands(),
        Value::NullValue(x) => x.spec_expands(),
        Value::EnumValue(x) => x.spec_expands(),
        Value::ListValue(x) => values_any_expand(x.values.0@),
        Value::ObjectValue(x) => x.object_fields.0@.len() > 1,
    }
}

/// Whether a value may be broken over lines: a list may.
pub open spec fn value_can_expand(v: Value) -> bool {
    match v {
        Value::Variable(x) => x.spec_can_expand(),
        Value::IntValue(x) => x.spec_can_expand(),
        Value::FloatValue(x) => x.spec_can_expand(),
        Value::StringValue(x) => x.spec_can_expand(),
        Value::BooleanValue(x) => x.spec_can_expand(),
        Value::NullValue(x) => x.spec_can_expand(),
        Value::EnumValue(x) => x.spec_can_expand(),
        Value::ListValue(x) => true,
        Value::ObjectValue(x) => false,
    }
}

/// Whether a value laid out on one line is wider than `width`.
pub open spec fn value_overflows(v: Value, width: usize) -> bool
    decreases v, 2nat,
{
    !steps::<Measurer>((0usize, width), value_collapsed(v, Shape::initial(width))).2
}

/// How a value is laid out: broken over lines where it must be, or where
/// it may be and does not fit in the room left.
pub open spec fn value_formatted(v: Value, sh: Shape) -> (Writes, Shape)
    decreases v, 3nat,
{
    if value_expands(v) || (value_can_expand(v) && value_overflows(v, sh.room())) {
        value_expanded(v, sh)
    } else {
        value_collapsed(v, sh)
    }
}

/// Whether one of the values must be broken over lines.
pub open spec fn values_any_expand(s: Seq<Shared<Value>>) -> bool
    decreases s, 0nat,
{
    if s.len() == 0 {
        false
    } else {
        values_any_expand(s.drop_last()) || value_expands(*s.last().0)
    }
}

/// Values separated by commas, each starting a new line when it does not
/// fit in the room left.
pub open spec fn values_comma(s: Seq<Shared<Value>>, sh: Shape) -> (Writes, Shape)
    decreases s, 0nat,
{
    if s.len() == 0 {
        nothing(sh)
    } else {
        let before = values_comma(s.drop_last(), sh);
        then(before, value_comma_step(s.len() - 1, *s.last().0, before.1))
    }
}

/// The `i`th value of a list separated by commas.
pub open spec fn value_comma_step(i: int, v: Value, sh: Shape) -> (Writes, Shape)
    decreases v, 4nat,
{
    let comma = if i != 0 {
        squeezed_push_step(sh, seq![','])
    } else {
        nothing(sh)
    };
    let wrap = if value_overflows(v, comma.1.room()) {
        lines_step(comma.1, 1)
    } else {
        nothing(comma.1)
    };
    then(then(comma, wrap), value_formatted(v, wrap.1))
}

pub open spec fn value_comma_item() -> spec_fn(int, Shared<Value>, Shape) -> (Writes, Shape) {
    |i: int, v: Shared<Value>, sh: Shape| value_comma_step(i, *v.0, sh)
}

/// Values one per line, each followed by a comma.
pub open spec fn values_line_comma(s: Seq<Shared<Value>>, sh: Shape) -> (Writes, Shape)
    decreases s, 0nat,
{
    if s.len() == 0 {
        nothing(sh)
    } else {
        let before = values_line_comma(s.drop_last(), sh);
        then(before, value_line_comma_step(*s.last().0, before.1))
    }
}

/// A value on a line of its own, followed by a comma.
pub open spec fn value_line_comma_step(v: Value, sh: Shape) -> (Writes, Shape)
    decreases v, 4nat,
{
    let start = lines_step(sh, 1);
    let body = value_formatted(v, start.1);
    then(then(start, body), squeezed_push_step(body.1, seq![',']))
}

pub open spec fn value_line_comma_item() -> spec_fn(int, Shared<Value>, Shape) -> (Writes, Shape) {
    |i: int, v: Shared<Value>, sh: Shape| value_line_comma_step(*v.0, sh)
}

/// Object fields one after the other.
pub open spec fn fields_each(s: Seq<ObjectField>, sh: Shape) -> (Writes, Shape)
    decreases s, 0nat,
{
    if s.len() == 0 {
        nothing(sh)
    } else {
        let before = fields_each(s.drop_last(), sh);
        then(before, object_field_collapsed(s.last(), before.1))
    }
}

pub open spec fn field_item() -> spec_fn(int, ObjectField, Shape) -> (Writes, Shape) {
    |i: int, f: ObjectField, sh: Shape| object_field_collapsed(f, sh)
}

/// Object fields one per line, each followed by a comma.
pub open spec fn fields_line_comma(s: Seq<ObjectField>, sh: Shape) -> (Writes, Shape)
    decreases s, 0nat,
{
    if s.len() == 0 {
        nothing(sh)
    } else {
        let before = fields_line_comma(s.drop_last(), sh);
        then(before, field_line_comma_step(s.last(), before.1))
    }
}

/// An object field on a line of its own, followed by a comma.
pub open spec fn field_line_comma_step(f: ObjectField, sh: Shape) -> (Writes, Shape)
    decreases f, 1nat,
{
    let start = lines_step(sh, 1);
    let body = object_field_collapsed(f, start.1);
    then(then(start, body), squeezed_push_step(body.1, seq![',']))
}

pub open spec fn field_line_comma_item() -> spec_fn(int, ObjectField, Shape) -> (Writes, Shape) {
    |i: int, f: ObjectField, sh: Shape| field_line_comma_step(f, sh)
}

proof fn lemma_values_comma(s: Seq<Shared<Value>>, sh: Shape)
    ensures
        values_comma(s, sh) == fold(s, sh, value_comma_item()),
    decreases s.len(),
{
    if s.len() > 0 {
        lemma_values_comma(s.drop_last(), sh);
    }
}

proof fn lemma_values_line_comma(s: Seq<Shared<Value>>, sh: Shape)
    ensures
        values_line_comma(s, sh) == fold(s, sh, value_line_comma_item()),
    decreases s.len(),
{
    if s.len() > 0 {
        lemma_values_line_comma(s.drop_last(), sh);
    }
}

proof fn lemma_fields_each(s: Seq<ObjectField>, sh: Shape)
    ensures
        fields_each(s, sh) == fold(s, sh, field_item()),
    decreases s.len(),
{
    if s.len() > 0 {
        lemma_fields_each(s.drop_last(), sh);
    }
}

proof fn lemma_fields_line_comma(s: Seq<ObjectField>, sh: Shape)
    ensures
        fields_line_comma(s, sh) == fold(s, sh, field_line_comma_item()),
    decreases s.len(),
{
    if s.len() > 0 {
        lemma_fields_line_comma(s.drop_last(), sh);
    }
}

fn format_value<W: Write>(v: &Value, formatter: &mut Formatter<W>) -> (r: Result<(), Error>)
    ensures
        final(formatter).outcome(r) == steps::<W>(old(formatter).model(), value_formatted(*v, old(formatter).shape())),
    decreases v, 3nat,
{
    let room = formatter.room();
    let expanded = value_expands_exec(v) || (value_can_expand_exec(v) && value_overflows_exec(v, room));
    if expanded {
        format_value_expanded(v, formatter)
    } else {
        format_value_collapsed(v, formatter)
    }
}

fn value_overflows_exec(v: &Value, width: usize) -> (b: bool)
    ensures
        b == value_overflows(*v, width),
    decreases v, 2nat,
{
    let mut formatter = Formatter::new(Measurer::new(width), width);
    format_value_collapsed(v, &mut formatter).is_err()
}

fn value_expands_exec(v: &Value) -> (b: bool)
    ensures
        b == value_expands(*v),
    decreases v, 1nat,
{
    match v {
        Value::Variable(x) => x.expands(),
        Value::IntValue(x) => x.expands(),
        Value::FloatValue(x) => x.expands(),
        Value::StringValue(x) => x.expands(),
        Value::BooleanValue(x) => x.expands(),
        Value::NullValue(x) => x.expands(),
        Value::EnumValue(x) => x.expands(),
        Value::ListValue(x) => values_any_expand_exec(&x.values.0),
        Value::ObjectValue(x) => x.object_fields.0.len() > 1,
    }
}

fn value_can_expand_exec(v: &Value) -> (b: bool)
    ensures
        b == value_can_expand(*v),
{
    match v {
        Value::Variable(x) => x.can_expand(),
        Value::IntValue(x) => x.can_expand(),
        Value::FloatValue(x) => x.can_expand(),
        Value::StringValue(x) => x.can_expand(),
        Value::BooleanValue(x) => x.can_expand(),
        Value::NullValue(x) => x.can_expand(),
        Value::EnumValue(x) => x.can_expand(),
        Value::ListValue(x) => true,
        Value::ObjectValue(x) => false,
    }
}

fn values_any_expand_exec(items: &Vec<Shared<Value>>) -> (b: bool)
    ensures
        b == values_any_expand(items@),
    decreases items@, 0nat,
{
    let mut any = false;
    let mut i: usize = 0;
    while i < items.len()
        invariant
            i <= items@.len(),
            any == values_any_expand(items@.take(i as int)),
        decreases items.len() - i,
    {
        proof {
            assert(items@.take(i + 1).drop_last() =~= items@.take(i as int));
        }
        any = any || value_expands_exec(&*items[i].0);
        i = i + 1;
    }
    assert(items@.take(i as int) =~= items@);
    any
}

fn format_value_collapsed<W: Write>(v: &Value, formatter: &mut Formatter<W>) -> (r: Result<(), Error>)
    ensures
        final(formatter).outcome(r) == steps::<W>(old(formatter).model(), value_collapsed(*v, old(formatter).shape())),
    decreases v, 1nat,
{
    match v {
        Value::Variable(x) => x.format_collapsed(formatter),
        Value::IntValue(x) => x.format_collapsed(formatter),
        Value::FloatValue(x) => x.format_collapsed(formatter),
        Value::StringValue(x) => x.format_collapsed(formatter),
        Value::BooleanValue(x) => x.format_collapsed(formatter),
        Value::NullValue(x) => x.format_collapsed(formatter),
        Value::EnumValue(x) => x.format_collapsed(formatter),
        Value::ListValue(x) => format_list_value_collapsed(x, formatter),
        Value::ObjectValue(x) => format_object_value_collapsed(x, formatter),
    }
}

fn format_value_expanded<W: Write>(v: &Value, formatter: &mut Formatter<W>) -> (r: Result<(), Error>)
    ensures
        final(formatter).outcome(r) == steps::<W>(old(formatter).model(), value_expanded(*v, old(formatter).shape())),
    decreases v, 1nat,
{
    match v {
        Value::Variable(x) => x.format_expanded(formatter),
        Value::IntValue(x) => x.format_expanded(formatter),
        Value::FloatValue(x) => x.format_expanded(formatter),
        Value::StringValue(x) => x.format_expanded(formatter),
        Value::BooleanValue(x) => x.format_expanded(formatter),
        Value::NullValue(x) => x.format_expanded(formatter),
        Value::EnumValue(x) => x.format_expanded(formatter),
        Value::ListValue(x) => format_list_value_expanded(x, formatter),
        Value::ObjectValue(x) => format_object_value_expanded(x, formatter),
    }
}

fn format_values_comma<W: Write>(items: &Vec<Shared<Value>>, formatter: &mut Formatter<W>) -> (r: Result<(), Error>)
    ensures
        final(formatter).outcome(r) == steps::<W>(old(formatter).model(), values_comma(items@, old(formatter).shape())),
    decreases items@, 0nat,
{
    let ghost m0 = formatter.model();
    let ghost sh0 = formatter.shape();
    let ghost step = value_comma_item();
    proof {
        lemma_values_comma(items@, sh0);
    }
    let mut i: usize = 0;
    while i < items.len()
        invariant
            i <= items@.len(),
            m0 == old(formatter).model(),
            sh0 == old(formatter).shape(),
            step == value_comma_item(),
            values_comma(items@, sh0) == fold(items@, sh0, step),
            steps::<W>(m0, fold(items@.take(i as int), sh0, step)) == (formatter.model(), formatter.shape(), true),
        decreases items.len() - i,
    {
        let ghost mb = formatter.model();
        let ghost shb = formatter.shape();
        let ghost item = node_of(items@[i as int]);
        let ghost comma = if i != 0 {
            squeezed_push_step(shb, seq![','])
        } else {
            nothing(shb)
        };
        proof {
            lemma_fold_next::<W, Shared<Value>>(m0, items@, sh0, step, i as int);
            reveal_strlit(",");
            assert(","@ =~= seq![',']);
            let wrap = if value_overflows(item, comma.1.room()) {
                lines_step(comma.1, 1)
            } else {
                nothing(comma.1)
            };
            assert(step(i as int, items@[i as int], shb) == then(then(comma, wrap), value_formatted(item, wrap.1)));
            lemma_then::<W>(mb, then(comma, wrap), value_formatted(item, wrap.1));
            lemma_then::<W>(mb, comma, wrap);
            lemma_steps_end::<W>(mb, comma);
            lemma_steps_end::<W>(mb, then(comma, wrap));
            lemma_steps_end::<W>(steps::<W>(mb, comma).0, wrap);
            if i == 0 {
                assert(comma.0 + wrap.0 =~= wrap.0);
            }
        }
        if i != 0 {
            let r = formatter.push_squeezed(",");
            if r.is_err() {
                proof {
                    lemma_fold_fails::<W, Shared<Value>>(m0, items@, sh0, step, i + 1);
                }
                return r;
            }
        }
        let room = formatter.room();
        if value_overflows_exec(&*items[i].0, room) {
            let r = formatter.line();
            if r.is_err() {
                proof {
                    lemma_fold_fails::<W, Shared<Value>>(m0, items@, sh0, step, i + 1);
                }
                return r;
            }
        }
        let r = format_value(&*items[i].0, formatter);
        if r.is_err() {
            proof {
                lemma_fold_fails::<W, Shared<Value>>(m0, items@, sh0, step, i + 1);
            }
            return r;
        }
        i = i + 1;
    }
    assert(items@.take(i as int) =~= items@);
    Ok(())
}

fn format_values_line_comma<W: Write>(items: &Vec<Shared<Value>>, formatter: &mut Formatter<W>) -> (r: Result<(), Error>)
    ensures
        final(formatter).outcome(r) == steps::<W>(old(formatter).model(), values_line_comma(items@, old(formatter).shape())),
    decreases items@, 0nat,
{
    let ghost m0 = formatter.model();
    let ghost sh0 = formatter.shape();
    let ghost step = value_line_comma_item();
    proof {
        lemma_values_line_comma(items@, sh0);
    }
    let mut i: usize = 0;
    while i < items.len()
        invariant
            i <= items@.len(),
            m0 == old(formatter).model(),
            sh0 == old(formatter).shape(),
            step == value_line_comma_item(),
            values_line_comma(items@, sh0) == fold(items@, sh0, step),
            steps::<W>(m0, fold(items@.take(i as int), sh0, step)) == (formatter.model(), formatter.shape(), true),
        decreases items.len() - i,
    {
        let ghost mb = formatter.model();
        let ghost shb = formatter.shape();
        let ghost item = node_of(items@[i as int]);
        proof {
            lemma_fold_next::<W, Shared<Value>>(m0, items@, sh0, step, i as int);
            reveal_strlit(",");
            assert(","@ =~= seq![',']);
            let start = lines_step(shb, 1);
            let body = value_formatted(item, start.1);
            assert(step(i as int, items@[i as int], shb) == then(
                then(start, body),
                squeezed_push_step(body.1, seq![',']),
            ));
            lemma_then::<W>(mb, then(start, body), squeezed_push_step(body.1, seq![',']));
            lemma_then::<W>(mb, start, body);
            lemma_steps_end::<W>(mb, start);
            lemma_steps_end::<W>(mb, then(start, body));
            lemma_steps_end::<W>(steps::<W>(mb, start).0, body);
        }
        let r = formatter.line();
        if r.is_err() {
            proof {
                lemma_fold_fails::<W, Shared<Value>>(m0, items@, sh0, step, i + 1);
            }
            return r;
        }
        let r = format_value(&*items[i].0, formatter);
        if r.is_err() {
            proof {
                lemma_fold_fails::<W, Shared<Value>>(m0, items@, sh0, step, i + 1);
            }
            return r;
        }
        let r = formatter.push_squeezed(",");
        if r.is_err() {
            proof {
                lemma_fold_fails::<W, Shared<Value>>(m0, items@, sh0, step, i + 1);
            }
            return r;
        }
        i = i + 1;
    }
    assert(items@.take(i as int) =~= items@);
    Ok(())
}

fn format_fields_each<W: Write>(items: &Vec<ObjectField>, formatter: &mut Formatter<W>) -> (r: Result<(), Error>)
    ensures
        final(formatter).outcome(r) == steps::<W>(old(formatter).model(), fields_each(items@, old(formatter).shape())),
    decreases items@, 0nat,
{
    let ghost m0 = formatter.model();
    let ghost sh0 = formatter.shape();
    let ghost step = field_item();
    proof {
        lemma_fields_each(items@, sh0);
    }
    let mut i: usize = 0;
    while i < items.len()
        invariant
            i <= items@.len(),
            m0 == old(formatter).model(),
            sh0 == old(formatter).shape(),
            step == field_item(),
            fields_each(items@, sh0) == fold(items@, sh0, step),
            steps::<W>(m0, fold(items@.take(i as int), sh0, step)) == (formatter.model(), formatter.shape(), true),
        decreases items.len() - i,
    {
        proof {
            lemma_fold_next::<W, ObjectField>(m0, items@, sh0, step, i as int);
        }
        let r = format_object_field_collapsed(&items[i], formatter);
        if r.is_err() {
            proof {
                lemma_fold_fails::<W, ObjectField>(m0, items@, sh0, step, i + 1);
            }
            return r;
        }
        i = i + 1;
    }
    assert(items@.take(i as int) =~= items@);
    Ok(())
}

fn format_fields_line_comma<W: Write>(items: &Vec<ObjectField>, formatter: &mut Formatter<W>) -> (r: Result<(), Error>)
    ensures
        final(formatter).outcome(r) == steps::<W>(old(formatter).model(), fields_line_comma(items@, old(formatter).shape())),
    decreases items@, 0nat,
{
    let ghost m0 = formatter.model();
    let ghost sh0 = formatter.shape();
    let ghost step = field_line_comma_item();
    proof {
        lemma_fields_line_comma(items@, sh0);
    }
    let mut i: usize = 0;
    while i < items.len()
        invariant
            i <= items@.len(),
            m0 == old(formatter).model(),
            sh0 == old(formatter).shape(),
            step == field_line_comma_item(),
            fields_line_comma(items@, sh0) == fold(items@, sh0, step),
            steps::<W>(m0, fold(items@.take(i as int), sh0, step)) == (formatter.model(), formatter.shape(), true),
        decreases items.len() - i,
    {
        let ghost mb = formatter.model();
        let ghost shb = formatter.shape();
        let ghost item = items@[i as int];
        proof {
            lemma_fold_next::<W, ObjectField>(m0, items@, sh0, step, i as int);
            reveal_strlit(",");
            assert(","@ =~= seq![',']);
            let start = lines_step(shb, 1);
            let body = object_field_collapsed(item, start.1);
            assert(step(i as int, item, shb) == then(then(start, body), squeezed_push_step(body.1, seq![','])));
            lemma_then::<W>(mb, then(start, body), squeezed_push_step(body.1, seq![',']));
            lemma_then::<W>(mb, start, body);
            lemma_steps_end::<W>(mb, start);
            lemma_steps_end::<W>(mb, then(start, body));
            lemma_steps_end::<W>(steps::<W>(mb, start).0, body);
        }
        let r = formatter.line();
        if r.is_err() {
            proof {
                lemma_fold_fails::<W, ObjectField>(m0, items@, sh0, step, i + 1);
            }
            return r;
        }
        let r = format_object_field_collapsed(&items[i], formatter);
        if r.is_err() {
            proof {
                lemma_fold_fails::<W, ObjectField>(m0, items@, sh0, step, i + 1);
            }
            return r;
        }
        let r = formatter.push_squeezed(",");
        if r.is_err() {
            proof {
                lemma_fold_fails::<W, ObjectField>(m0, items@, sh0, step, i + 1);
            }
            return r;
        }
        i = i + 1;
    }
    assert(items@.take(i as int) =~= items@);
    Ok(())
}

/// A value is laid out as the kind of value it is; a list may be broken
/// over lines, and an object of more than one field must be.
impl Format for Value {
    open spec fn collapsed(&self, sh: Shape) -> (Writes, Shape) {
        value_collapsed(*self, sh)
    }

    open spec fn expanded(&self, sh: Shape) -> (Writes, Shape) {
        value_expanded(*self, sh)
    }

    open spec fn spec_expands(&self) -> bool {
        value_expands(*self)
    }

    open spec fn spec_can_expand(&self) -> bool {
        value_can_expand(*self)
    }

    fn format_collapsed<W: Write>(&self, formatter: &mut Formatter<W>) -> (r: Result<(), Error>) {
        format_value_collapsed(self, formatter)
    }

    fn format_expanded<W: Write>(&self, formatter: &mut Formatter<W>) -> (r: Result<(), Error>) {
        format_value_expanded(self, formatter)
    }

    fn expands(&self) -> (b: bool) {
        value_expands_exec(self)
    }

    fn can_expand(&self) -> (b: bool) {
        value_can_expand_exec(self)
    }
}

/// A list is laid out in brackets, its values separated by commas, or one
/// per line when one of them must be broken up.
impl Format for ListValue {
    open spec fn collapsed(&self, sh: Shape) -> (Writes, Shape) {
        list_value_collapsed(*self, sh)
    }

    open spec fn expanded(&self, sh: Shape) -> (Writes, Shape) {
        list_value_expanded(*self, sh)
    }

    open spec fn spec_expands(&self) -> bool {
        values_any_expand(self.values.0@)
    }

    open spec fn spec_can_expand(&self) -> bool {
        true
    }

    fn format_collapsed<W: Write>(&self, formatter: &mut Formatter<W>) -> (r: Result<(), Error>) {
        format_list_value_collapsed(self, formatter)
    }

    fn format_expanded<W: Write>(&self, formatter: &mut Formatter<W>) -> (r: Result<(), Error>) {
        format_list_value_expanded(self, formatter)
    }

    fn expands(&self) -> (b: bool) {
        values_any_expand_exec(&self.values.0)
    }

    fn can_expand(&self) -> (b: bool) {
        true
    }
}

/// An object is laid out in braces, its fields one per line, separated by
/// commas, when it has more than one.
impl Format for ObjectValue {
    open spec fn collapsed(&self, sh: Shape) -> (Writes, Shape) {
        object_value_collapsed(*self, sh)
    }

    open spec fn expanded(&self, sh: Shape) -> (Writes, Shape) {
        object_value_expanded(*self, sh)
    }

    open spec fn spec_expands(&self) -> bool {
        self.object_fields.0@.len() > 1
    }

    open spec fn spec_can_expand(&self) -> bool {
        false
    }

    fn format_collapsed<W: Write>(&self, formatter: &mut Formatter<W>) -> (r: Result<(), Error>) {
        format_object_value_collapsed(self, formatter)
    }

    fn format_expanded<W: Write>(&self, formatter: &mut Formatter<W>) -> (r: Result<(), Error>) {
        format_object_value_expanded(self, formatter)
    }

    fn expands(&self) -> (b: bool) {
        self.object_fields.0.len() > 1
    }

    fn can_expand(&self) -> (b: bool) {
        false
    }
}

impl Format for ObjectField {
    open spec fn collapsed(&self, sh: Shape) -> (Writes, Shape) {
        object_field_collapsed(*self, sh)
    }

    open spec fn expanded(&self, sh: Shape) -> (Writes, Shape) {
        object_field_collapsed(*self, sh)
    }

    open spec fn spec_expands(&self) -> bool {
        match self.value {
            Recoverable::Present(x) => value_expands(*x.0),
            Recoverable::Missing(_) => false,
        }
    }

    open spec fn spec_can_expand(&self) -> bool {
        false
    }

    fn format_collapsed<W: Write>(&self, formatter: &mut Formatter<W>) -> (r: Result<(), Error>) {
        format_object_field_collapsed(self, formatter)
    }

    fn format_expanded<W: Write>(&self, formatter: &mut Formatter<W>) -> (r: Result<(), Error>) {
        format_object_field_collapsed(self, formatter)
    }

    fn expands(&self) -> (b: bool) {
        match &self.value {
            Recoverable::Present(x) => value_expands_exec(&*x.0),
            Recoverable::Missing(_) => false,
        }
    }

    fn can_expand(&self) -> (b: bool) {
        false
    }
}

} // verus!
