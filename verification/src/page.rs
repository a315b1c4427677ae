//! The diagnostic page: the request as it came in, its headers, and the
//! variables that the caller chose to disclose, as one HTML text.

use vstd::prelude::*;

verus! {

/// A key and a value as plain text.
pub struct FieldView {
    pub key: Seq<char>,
    pub value: Seq<char>,
}

/// A header of a request or a variable of the environment: a key and a value,
/// each as it is shown on the page.
#[derive(Clone, Debug)]
pub struct Field {
    pub key: String,
    pub value: String,
}

impl View for Field {
    type V = FieldView;

    open spec fn view(&self) -> FieldView {
        FieldView { key: self.key@, value: self.value@ }
    }
}

/// The fields of a list as plain values, in the list's order.
pub open spec fn fields_view(fields: Seq<Field>) -> Seq<FieldView> {
    fields.map_values(|field: Field| field@)
}

/// A request as plain text.
pub struct RequestView {
    pub protocol: Seq<char>,
    pub method: Seq<char>,
    pub uri: Seq<char>,
    pub path: Seq<char>,
    pub headers: Seq<FieldView>,
}

/// What the service reads of an inbound request.
#[derive(Clone, Debug)]
pub struct RequestInfo {
    /// The protocol version, such as `HTTP/1.1`.
    pub protocol: String,
    /// The method as the request line gave it, such as `GET`.
    pub method: String,
    /// The request target with its query.
    pub uri: String,
    /// The path of the request target, by which the request is routed.
    pub path: String,
    /// The headers in the order in which they came.
    pub headers: Vec<Field>,
}

impl View for RequestInfo {
    type V = RequestView;

    open spec fn view(&self) -> RequestView {
        RequestView {
            protocol: self.protocol@,
            method: self.method@,
            uri: self.uri@,
            path: self.path@,
            headers: fields_view(self.headers@),
        }
    }
}

/// One line of a list of fields: the key, a colon and a space, the value.
pub open spec fn field_line(field: FieldView) -> Seq<char> {
    field.key + ": "@ + field.value + "\n"@
}

/// The lines of the fields, in their order.
pub open spec fn field_lines(fields: Seq<FieldView>) -> Seq<char>
    decreases fields.len(),
{
    if fields.len() == 0 {
        Seq::<char>::empty()
    } else {
        field_lines(fields.drop_last()) + field_line(fields.last())
    }
}

/// The part of the page that shows the request line.
pub open spec fn request_section(request: RequestView) -> Seq<char> {
    "<H1>Request</H1>"@ + "<textarea cols=150 readonly>"@ + "Protocol: "@ + request.protocol
        + "\n"@ + "Method: "@ + request.method + "\n"@ + "URI: "@ + request.uri + "</textarea>"@
}

/// The part of the page that shows the headers.
pub open spec fn headers_section(headers: Seq<FieldView>) -> Seq<char> {
    "<H1>Headers</H1>"@ + "<textarea cols=150 rows=20 readonly>"@ + field_lines(headers)
        + "</textarea>"@
}

/// The part of the page that shows the environment.
pub open spec fn env_section(env: Seq<FieldView>) -> Seq<char> {
    "<H1>Env</H1>"@ + "<hr><textarea cols=150 rows=20 readonly>"@ + field_lines(env)
        + "</textarea>"@
}

/// The page for a request. With `Some(env)` it ends in the part that shows
/// the environment, with `None` it has no such part.
pub open spec fn page_text(request: RequestView, env: Option<Seq<FieldView>>) -> Seq<char> {
    "<html><body>"@ + "<H1>Program</H1>"@ + request_section(request) + headers_section(
        request.headers,
    ) + "<H1>Data</H1>"@ + (match env {
        Some(fields) => env_section(fields),
        None => Seq::<char>::empty(),
    }) + "</body></html>\n"@
}

/// Appends the lines of `fields` to `out`.
pub fn push_field_lines(out: &mut String, fields: &Vec<Field>)
    ensures
        final(out)@ == old(out)@ + field_lines(fields_view(fields@)),
{
    let mut i: usize = 0;
    while i < fields.len()
        invariant
            i <= fields.len(),
            out@ == old(out)@ + field_lines(fields_view(fields@.take(i as int))),
        decreases fields.len() - i,
    {
        let field = &fields[i];
        proof {
            let before = fields_view(fields@.take(i as int));
            let after = fields_view(fields@.take(i + 1));
            assert(after.drop_last() =~= before);
            assert(after.last() == field@);
        }
        out.append(field.key.as_str());
        out.append(": ");
        out.append(field.value.as_str());
        out.append("\n");
        i += 1;
    }
    proof {
        assert(fields@.take(fields.len() as int) =~= fields@);
    }
}

/// Renders the page for `request`, with the environment part if `env` is given.
pub fn render_page(request: &RequestInfo, env: Option<&Vec<Field>>) -> (page: String)
    ensures
        page@ == page_text(
            request@,
            match env {
                Some(fields) => Some(fields_view(fields@)),
                None => None,
            },
        ),
{
    let mut body = String::from_str("<html><body>");
    body.append("<H1>Program</H1>");

    body.append("<H1>Request</H1>");
    body.append("<textarea cols=150 readonly>");
    body.append("Protocol: ");
    body.append(request.protocol.as_str());
    body.append("\n");
    body.append("Method: ");
    body.append(request.method.as_str());
    body.append("\n");
    body.append("URI: ");
    body.append(request.uri.as_str());
    body.append("</textarea>");

    body.append("<H1>Headers</H1>");
    body.append("<textarea cols=150 rows=20 readonly>");
    push_field_lines(&mut body, &request.headers);
    body.append("</textarea>");

    body.append("<H1>Data</H1>");

    match env {
        Some(fields) => {
            body.append("<H1>Env</H1>");
            body.append("<hr><textarea cols=150 rows=20 readonly>");
            push_field_lines(&mut body, fields);
            body.append("</textarea>");
        },
        None => {},
    }

    body.append("</body></html>\n");
    body
}

} // verus!
