//! The HTML report of one sub-area: a table of its ports and, below it, the
//! picture that belongs to the sub-area.

use crate::decimal::{decimal_string, digits_of};
use crate::model::{HtmlSource, PortInfo, PortRecord, SubAreaResult};
use vstd::prelude::*;
use vstd::string::*;

verus! {

/// What every report starts with.
pub const REPORT_HEAD: &'static str =
    "<!DOCTYPE html><html lang=\"en\">\n<head>\n<meta http-equiv=\"Content-Type\" content=\"text/html; charset=utf-8\"/>\n<table border=1>";

/// The table row of one port: identifier, a dot and the name in the first
/// cell, the number of vehicles in the second.
pub open spec fn row_of(port: PortRecord) -> Seq<char> {
    "\n<tr><td>"@ + port.id + "."@ + port.name + "</td><td>"@ + digits_of(port.count)
        + "</td></tr>"@
}

/// The rows of the ports, in order.
pub open spec fn rows_of(ports: Seq<PortRecord>) -> Seq<char>
    decreases ports.len(),
{
    if ports.len() == 0 {
        Seq::empty()
    } else {
        rows_of(ports.drop_last()) + row_of(ports.last())
    }
}

/// What closes the report of the sub-area `title`: the end of the table and
/// the reference to the sub-area's picture.
pub open spec fn tail_of(title: Seq<char>) -> Seq<char> {
    "\n</table>\n<img src='./"@ + title + ".png'>\n</body>\n</html>"@
}

/// The report of one sub-area.
pub open spec fn report_of(result: SubAreaResult) -> Seq<char> {
    REPORT_HEAD@ + rows_of(result.ports) + tail_of(result.title)
}

/// The path of the report of the sub-area `title` below the directory `dir`.
pub open spec fn path_of(dir: Seq<char>, title: Seq<char>) -> Seq<char> {
    dir + "/"@ + title + ".html"@
}

/// Writes the table row of one port at the end of `output`.
fn push_row(output: &mut String, port: &PortInfo)
    ensures
        final(output)@ == old(output)@ + row_of(port@),
{
    let count = decimal_string(port.0.2);
    output.append("\n<tr><td>");
    output.append(port.0.0.as_str());
    output.append(".");
    output.append(port.0.1.as_str());
    output.append("</td><td>");
    output.append(count.as_str());
    output.append("</td></tr>");
    assert(output@ =~= old(output)@ + row_of(port@));
}

/// Renders the report of one sub-area. Gives the sub-area's title and the
/// HTML text.
pub fn render(source: &HtmlSource) -> (report: (String, String))
    ensures
        report.0@ == source@.title,
        report.1@ == report_of(source@),
{
    let mut output = String::from_str(REPORT_HEAD);
    let mut i: usize = 0;
    while i < source.ports.len()
        invariant
            i <= source.ports.len(),
            output@ == REPORT_HEAD@ + rows_of(source@.ports.take(i as int)),
        decreases source.ports.len() - i,
    {
        let ghost before = output@;
        push_row(&mut output, &source.ports[i]);
        proof {
            let ports = source@.ports;
            assert(ports.take(i + 1).drop_last() =~= ports.take(i as int));
            assert(ports.take(i + 1).last() == source.ports@[i as int]@);
            assert(output@ =~= REPORT_HEAD@ + rows_of(ports.take(i + 1)));
        }
        i = i + 1;
    }
    proof {
        assert(source@.ports.take(i as int) =~= source@.ports);
    }
    output.append("\n</table>\n<img src='./");
    output.append(source.title.as_str());
    output.append(".png'>\n</body>\n</html>");
    assert(output@ =~= report_of(source@));
    (source.title.clone(), output)
}

/// The path of the file that the report of the sub-area `title` goes to.
pub fn report_path(file_dir: &str, title: &str) -> (path: String)
    ensures
        path@ == path_of(file_dir@, title@),
{
    let mut path = String::from_str(file_dir);
    path.append("/");
    path.append(title);
    path.append(".html");
    assert(path@ =~= path_of(file_dir@, title@));
    path
}

} // verus!
