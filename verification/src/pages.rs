//! Scripts and pages the shell injects into or serves to its WebViews:
//! the title bar, the settings menu, and the toasts. Every value they carry
//! goes in as a JSON string literal or a fixed color.
use vstd::prelude::*;

use crate::control::control_addr;
use crate::json::{json_quoted, quote};
use crate::platform::{file_name_of, parent_path, saved_file_parts};
use crate::text::{replace_all, replace_spec};

verus! {

/// Piece 1 of the result-toast script.
pub const NOTE_TOAST_1: &'static str = r##"(function(){var o=document.getElementById('dsh-note-toast');if(o)o.remove();var b=document.createElement('div');b.id='dsh-note-toast';b.style.cssText='position:fixed;top:14px;left:50%;transform:translateX(-50%);z-index:2147483647;background:"##;
/// Piece 2 of the result-toast script.
pub const NOTE_TOAST_2: &'static str = r##";color:#eee;border:1px solid "##;
/// Piece 3 of the result-toast script.
pub const NOTE_TOAST_3: &'static str = r##";border-radius:10px;padding:12px 14px;width:360px;box-sizing:border-box;font-family:"Segoe UI",sans-serif;font-size:12px;box-shadow:0 8px 28px rgba(0,0,0,.5)';var h=document.createElement('div');h.textContent="##;
/// Piece 4 of the result-toast script.
pub const NOTE_TOAST_4: &'static str = r##";h.style.cssText='font-weight:600;font-size:13px;margin-bottom:4px';var a=document.createElement('div');a.textContent="##;
/// Piece 5 of the result-toast script.
pub const NOTE_TOAST_5: &'static str = r##";a.style.cssText='font-size:12px;word-break:break-all';var r=document.createElement('div');r.style.cssText='text-align:right;margin-top:8px';var c=document.createElement('button');c.textContent='Close';c.style.cssText='background:#2d2d2d;color:#eee;border:1px solid #4a4a4a;border-radius:6px;padding:3px 12px;font-size:12px;cursor:pointer';c.onclick=function(){b.remove()};r.appendChild(c);b.appendChild(h);b.appendChild(a);b.appendChild(r);document.body.appendChild(b);setTimeout(function(){b.remove()},9000);})()"##;
/// Piece 1 of the download-toast script.
pub const DOWNLOAD_TOAST_1: &'static str = r##"(function(){var o=document.getElementById('dsh-dl-toast');if(o)o.remove();var t="##;
/// Piece 2 of the download-toast script.
pub const DOWNLOAD_TOAST_2: &'static str = r##",f="##;
/// Piece 3 of the download-toast script.
pub const DOWNLOAD_TOAST_3: &'static str = r##",d="##;
/// Piece 4 of the download-toast script.
pub const DOWNLOAD_TOAST_4: &'static str = r##",p="##;
/// Piece 5 of the download-toast script.
pub const DOWNLOAD_TOAST_5: &'static str = r##";var b=document.createElement('div');b.id='dsh-dl-toast';b.style.cssText='position:fixed;top:14px;left:50%;transform:translateX(-50%);z-index:2147483647;background:"##;
/// Piece 6 of the download-toast script.
pub const DOWNLOAD_TOAST_6: &'static str = r##";color:#eee;border:1px solid "##;
/// Piece 7 of the download-toast script.
pub const DOWNLOAD_TOAST_7: &'static str = r##";border-radius:10px;padding:12px 14px;width:360px;box-sizing:border-box;font-family:"Segoe UI",sans-serif;font-size:12px;box-shadow:0 8px 28px rgba(0,0,0,.5)';var h=document.createElement('div');h.textContent=t;h.style.cssText='font-weight:600;font-size:13px;margin-bottom:4px';var a=document.createElement('div');a.textContent=f;a.style.cssText='font-size:12px;word-break:break-all';var g=document.createElement('div');g.textContent=d;g.style.cssText='font-size:11px;color:#9a9a9a;word-break:break-all;margin-top:2px';var r=document.createElement('div');r.style.cssText='text-align:right;margin-top:8px';var s=document.createElement('button');s.textContent='Show in folder';s.style.cssText='background:#2d2d2d;color:#eee;border:1px solid #4a4a4a;border-radius:6px;padding:3px 12px;font-size:12px;cursor:pointer;margin-right:8px';s.onclick=function(){s.disabled=true;s.textContent='Opening…';fetch('http://"##;
/// Piece 8 of the download-toast script.
pub const DOWNLOAD_TOAST_8: &'static str = r##"/reveal',{method:'POST',headers:{'content-type':'application/json'},body:JSON.stringify({path:p})}).then(function(){s.textContent='Opened ✓';setTimeout(function(){b.remove()},800)}).catch(function(){s.disabled=false;s.textContent='Show in folder'})};var c=document.createElement('button');c.textContent='Close';c.style.cssText='background:#2d2d2d;color:#eee;border:1px solid #4a4a4a;border-radius:6px;padding:3px 12px;font-size:12px;cursor:pointer';c.onclick=function(){b.remove()};r.appendChild(s);r.appendChild(c);b.appendChild(h);b.appendChild(a);b.appendChild(g);b.appendChild(r);document.body.appendChild(b);setTimeout(function(){b.remove()},9000);})()"##;
/// Piece 1 of the settings-menu script.
pub const SETTINGS_MENU_1: &'static str = r##"(function(){var o=document.getElementById('dsh-shell-menu');if(o){closeMenu();return}var base='http://"##;
/// Piece 2 of the settings-menu script.
pub const SETTINGS_MENU_2: &'static str = r##"';function post(p,b){return fetch(base+p,{method:'POST',headers:{'content-type':'application/json'},body:JSON.stringify(b||{})}).then(function(r){return r.json()})};var back=document.createElement('div');back.id='dsh-shell-menu-back';back.style.cssText='position:fixed;inset:0;z-index:2147483646;background:transparent';var m=document.createElement('div');m.id='dsh-shell-menu';m.style.cssText='position:fixed;top:8px;left:100px;z-index:2147483647;width:260px;background:#1e1e1e;color:#eee;border:1px solid #3a3a3a;border-radius:10px;padding:6px;box-sizing:border-box;font-family:"Segoe UI",sans-serif;font-size:12px;box-shadow:0 8px 28px rgba(0,0,0,.5)';function closeMenu(){var mm=document.getElementById('dsh-shell-menu');if(mm)mm.remove();var bb=document.getElementById('dsh-shell-menu-back');if(bb)bb.remove();document.removeEventListener('keydown',escMenu,true)}function escMenu(e){if(e.key==='Escape')closeMenu()}document.addEventListener('keydown',escMenu,true);function item(label){var d=document.createElement('div');d.textContent=label;d.style.cssText='padding:7px 10px;border-radius:6px;cursor:pointer;white-space:nowrap';d.onmouseenter=function(){d.style.background='#2d2d2d'};d.onmouseleave=function(){d.style.background='transparent'};m.appendChild(d);return d}var flab=document.createElement('div');flab.textContent='Download folder';flab.style.cssText='padding:7px 10px 3px;color:#9a9a9a;font-size:11px';m.appendChild(flab);var frow=document.createElement('div');frow.style.cssText='display:flex;gap:8px;padding:0 10px 10px';var inp=document.createElement('input');inp.type='text';inp.style.cssText='flex:1;min-width:0;background:#0d0d0d;color:#eee;border:1px solid #4a4a4a;border-radius:6px;padding:5px 8px;font-size:12px;font-family:inherit';var ch=document.createElement('button');ch.textContent='Change';ch.style.cssText='background:#2d2d2d;color:#eee;border:1px solid #4a4a4a;border-radius:6px;padding:4px 10px;font-size:12px;cursor:pointer;font-family:inherit;white-space:nowrap';frow.appendChild(inp);frow.appendChild(ch);m.appendChild(frow);var blab=document.createElement('div');blab.textContent='"##;
/// Piece 3 of the settings-menu script.
pub const SETTINGS_MENU_3: &'static str = r##"';blab.style.cssText='padding:3px 10px 10px;color:#9a9a9a;font-size:11px;white-space:nowrap';m.appendChild(blab);item('Reload').onclick=function(){post('/dsh-reload',{})};var sep=document.createElement('div');sep.style.cssText='border-top:1px solid #2e2e2e;margin:4px 6px';m.appendChild(sep);item('Restart').onclick=function(){if(!confirm('Restart the DSH web server? The UI reloads in a few seconds.'))return;closeMenu();var rst=document.createElement('style');rst.textContent='@keyframes dshRestartSpin{to{transform:rotate(360deg)}}';document.head.appendChild(rst);var ov=document.createElement('div');ov.id='dsh-restart-overlay';ov.style.cssText='position:fixed;inset:0;z-index:2147483647;background:rgba(10,10,10,.72);display:flex;align-items:center;justify-content:center;font-family:"Segoe UI",sans-serif';ov.innerHTML='<div style="background:#1e1e1e;border:1px solid #3a3a3a;border-radius:12px;padding:22px 30px;text-align:center;color:#eee"><svg width="26" height="26" viewBox="0 0 26 26" style="margin:0 auto 12px;animation:dshRestartSpin .8s linear infinite"><circle cx="13" cy="13" r="10" fill="none" stroke="#575757" stroke-width="3"/><circle cx="13" cy="13" r="10" fill="none" stroke="#fff" stroke-width="3" stroke-linecap="round" stroke-dasharray="16 47"/></svg><div style="font-weight:600;font-size:14px">Restarting DSH web…</div><div id="dsh-restart-sub" style="color:#9a9a9a;font-size:12px;margin-top:6px">Stopping the server…</div></div>';document.body.appendChild(ov);post('/dsh-restart',{})};var usep=document.createElement('div');usep.style.cssText='border-top:1px solid #2e2e2e;margin:4px 6px';m.appendChild(usep);var upg=item('Upgrade dsh');upg.onclick=function(){upg.textContent='Checking…';post('/dsh-check',{}).then(function(r){if(r.status==='uptodate'){upg.textContent='Up to date ✓';setTimeout(function(){upg.textContent='Upgrade dsh'},1500)}else if(r.status==='available'){upg.textContent='Upgrade dsh';if(!confirm('Update dsh backend? '+r.local+' to '+r.remote+' ('+r.behind+' commits behind). The shell will close, update in the background, then reopen. Running agent turns will be interrupted.'))return;closeMenu();post('/dsh-upgrade',{})}else if(r.status==='diverged'){upg.textContent='Local copy diverged';setTimeout(function(){upg.textContent='Upgrade dsh'},1800)}else if(r.status==='devmode'){upg.textContent='Dev checkout mode';setTimeout(function(){upg.textContent='Upgrade dsh'},1500)}else{upg.textContent='Check failed';setTimeout(function(){upg.textContent='Upgrade dsh'},1500)}}).catch(function(){upg.textContent='Check failed';setTimeout(function(){upg.textContent='Upgrade dsh'},1500)})};function hold(b,t){b.disabled=true;if(!b._t)b._t=b.textContent;b.textContent=t}function back(b,f){if(f){b.textContent=f;setTimeout(function(){b.textContent=b._t;b.disabled=false},1200)}else{b.textContent=b._t;b.disabled=false}}function savePath(v){hold(ch,'Saving…');post('/settings',{downloadDir:v}).then(function(r){if(r.error){back(ch,'Save failed')}else{back(ch,'Saved ✓');refresh()}}).catch(function(){back(ch,'Save failed')})}ch.onclick=function(){hold(ch,'Choosing…');post('/browse-folder',{}).then(function(r){if(r.cancelled){back(ch)}else if(r.path){inp.value=r.path;savePath(r.path)}}).catch(function(){back(ch,'Picker failed')})};inp.onkeydown=function(e){if(e.key==='Enter')savePath(inp.value)};function refresh(){fetch(base+'/settings').then(function(r){return r.json()}).then(function(s){inp.value=s.downloadDir||s.effectiveDownloadDir||''}).catch(function(){inp.placeholder='(shell unreachable)'})};back.onclick=function(){closeMenu()};document.body.appendChild(back);document.body.appendChild(m);refresh();})()"##;
/// Piece 1 of the restart-status script.
pub const RESTART_STATUS_1: &'static str = r##"try{var s=document.getElementById('dsh-restart-sub');if(s){s.textContent="##;
/// Piece 2 of the restart-status script.
pub const RESTART_STATUS_2: &'static str = r##";s.style.color='"##;
/// Piece 3 of the restart-status script.
pub const RESTART_STATUS_3: &'static str = r##"'}}catch(e){}"##;
/// The title-bar page, with `__BASE__` standing for the control plane URL.
pub const SHELLBAR_PAGE: &'static str = r##"<!doctype html><html><head><meta charset=utf-8><title>shellbar</title>
<style>
html,body{margin:0;padding:0;height:100%;overflow:hidden;background:#141414;color:#eee;font:12px 'Segoe UI',sans-serif}
#bar{display:flex;align-items:center;gap:8px;height:32px;padding:0 0 0 10px;box-sizing:border-box;user-select:none}
#brand{color:#888;font-weight:600;white-space:nowrap;margin-right:4px}
button{background:#2d2d2d;color:#eee;border:1px solid #4a4a4a;border-radius:6px;padding:4px 10px;font-size:12px;cursor:pointer;white-space:nowrap;font-family:inherit}
button:hover{background:#3a3a3a}
button:disabled{opacity:.5;cursor:default}
#dl{background:#0d0d0d;color:#eee;border:1px solid #4a4a4a;border-radius:6px;padding:5px 8px;font-size:12px;font-family:inherit}
#st{padding:6px 10px 4px;overflow:hidden;text-overflow:ellipsis;white-space:nowrap;color:#9a9a9a;font-size:11px;min-height:14px}
#sp{flex:0 0 auto;color:#555}
#settings-btn{background:none;border:none;border-radius:6px;padding:4px 10px}
#settings-btn:hover{background:#2d2d2d}
#wins{margin-left:auto;display:flex;align-items:stretch;height:32px}
.winbtn{background:none;border:none;border-radius:0;width:46px;padding:0;font-size:11px;color:#ccc}
.winbtn:hover{background:#3a3a3a}
#cls:hover{background:#c42b1c;color:#fff}
</style></head><body><div id=bar>
<span id=brand>dsh-desktop</span>
<button id=settings-btn title="Shell settings">⚙ Settings</button>
<span id=wins><button class=winbtn id=min title="Minimize">─</button><button class=winbtn id=max title="Maximize / restore">▢</button><button class=winbtn id=cls title="Close">✕</button></span>
</div><script>
(function(){
var base='__BASE__';
function post(p,b){return fetch(base+p,{method:'POST',headers:{'content-type':'application/json'},body:JSON.stringify(b||{})}).then(function(r){return r.json()})}
document.getElementById('settings-btn').onclick=function(){fetch(base+'/settings-menu',{method:'POST'})};
document.getElementById('min').onclick=function(){post('/window',{action:'minimize'})};
document.getElementById('max').onclick=function(){post('/window',{action:'toggle-max'})};
document.getElementById('cls').onclick=function(){post('/window',{action:'close'})};
var bar=document.getElementById('bar');
var downPos=null;
bar.addEventListener('mousedown',function(e){if(e.button!==0)return;if(e.target.closest('button')||e.target.closest('input'))return;downPos=[e.clientX,e.clientY]});
bar.addEventListener('mousemove',function(e){if(!downPos)return;if(Math.abs(e.clientX-downPos[0])+Math.abs(e.clientY-downPos[1])>5){downPos=null;fetch(base+'/drag-start',{method:'POST'})}});
bar.addEventListener('mouseup',function(){downPos=null});
bar.addEventListener('dblclick',function(e){if(e.target.closest('button')||e.target.closest('input'))return;post('/window',{action:'toggle-max'})});
})();
</script></body></html>"##;

/// Background and border colors of a toast: neutral on success, red on
/// failure.
pub open spec fn toast_colors(ok: bool) -> (Seq<char>, Seq<char>) {
    if ok {
        ("#1e1e1e"@, "#3a3a3a"@)
    } else {
        ("#2a1a1a"@, "#5a2a2a"@)
    }
}

fn colors(ok: bool) -> (r: (&'static str, &'static str))
    ensures
        (r.0@, r.1@) == toast_colors(ok),
{
    if ok {
        ("#1e1e1e", "#3a3a3a")
    } else {
        ("#2a1a1a", "#5a2a2a")
    }
}

/// The result toast: a card with a title, a body and a Close button that
/// replaces any earlier one and removes itself after nine seconds.
pub open spec fn note_toast_js_spec(title: Seq<char>, body: Seq<char>, ok: bool) -> Seq<char> {
    NOTE_TOAST_1@ + toast_colors(ok).0 + NOTE_TOAST_2@ + toast_colors(ok).1 + NOTE_TOAST_3@
        + json_quoted(title) + NOTE_TOAST_4@ + json_quoted(body) + NOTE_TOAST_5@
}

/// Builds the result-toast script.
pub fn note_toast_js(title: &str, body: &str, ok: bool) -> (r: String)
    ensures
        r@ == note_toast_js_spec(title@, body@, ok),
{
    let (bg, edge) = colors(ok);
    let jt = quote(title);
    let jb = quote(body);
    String::from_str(NOTE_TOAST_1).concat(bg).concat(NOTE_TOAST_2).concat(edge).concat(
        NOTE_TOAST_3,
    ).concat(jt.as_str()).concat(NOTE_TOAST_4).concat(jb.as_str()).concat(NOTE_TOAST_5)
}

/// The download toast for a finished download saved at `path` (or, on
/// failure, the folder it was meant for): title, file name, folder, and a
/// "Show in folder" button that posts the full path back to the shell.
pub open spec fn download_toast_js_spec(ok: bool, path: Seq<char>) -> Seq<char> {
    let title = if ok {
        "Download complete"@
    } else {
        "Download failed"@
    };
    let file = match file_name_of(path) {
        Some(f) => f,
        None => "download"@,
    };
    let folder = match parent_path(path) {
        Some(d) => d,
        None => Seq::empty(),
    };
    DOWNLOAD_TOAST_1@ + json_quoted(title) + DOWNLOAD_TOAST_2@ + json_quoted(file)
        + DOWNLOAD_TOAST_3@ + json_quoted(folder) + DOWNLOAD_TOAST_4@ + json_quoted(path)
        + DOWNLOAD_TOAST_5@ + toast_colors(ok).0 + DOWNLOAD_TOAST_6@ + toast_colors(ok).1
        + DOWNLOAD_TOAST_7@ + control_addr() + DOWNLOAD_TOAST_8@
}

/// Builds the download-toast script.
pub fn download_toast_js(ok: bool, path: &str) -> (r: String)
    ensures
        r@ == download_toast_js_spec(ok, path@),
{
    let (file, folder) = saved_file_parts(path);
    let title = if ok {
        "Download complete"
    } else {
        "Download failed"
    };
    let (bg, edge) = colors(ok);
    let jt = quote(title);
    let jf = quote(file.as_str());
    let jd = quote(folder.as_str());
    let jp = quote(path);
    String::from_str(DOWNLOAD_TOAST_1).concat(jt.as_str()).concat(DOWNLOAD_TOAST_2).concat(
        jf.as_str(),
    ).concat(DOWNLOAD_TOAST_3).concat(jd.as_str()).concat(DOWNLOAD_TOAST_4).concat(
        jp.as_str(),
    ).concat(DOWNLOAD_TOAST_5).concat(bg).concat(DOWNLOAD_TOAST_6).concat(edge).concat(
        DOWNLOAD_TOAST_7,
    ).concat("127.0.0.1:45331").concat(DOWNLOAD_TOAST_8)
}

/// Points the restart overlay's status line at `text`, red on failure.
pub open spec fn restart_status_js_spec(text: Seq<char>, failed: bool) -> Seq<char> {
    let color = if failed {
        "#e08080"@
    } else {
        "#9a9a9a"@
    };
    RESTART_STATUS_1@ + json_quoted(text) + RESTART_STATUS_2@ + color + RESTART_STATUS_3@
}

/// Builds the restart-status script.
pub fn restart_status_js(text: &str, failed: bool) -> (r: String)
    ensures
        r@ == restart_status_js_spec(text@, failed),
{
    let color = if failed {
        "#e08080"
    } else {
        "#9a9a9a"
    };
    let jt = quote(text);
    String::from_str(RESTART_STATUS_1).concat(jt.as_str()).concat(RESTART_STATUS_2).concat(
        color,
    ).concat(RESTART_STATUS_3)
}

/// The settings menu: a floating card under the title bar with the
/// download folder, the backend compatibility label, Reload, Restart and
/// Upgrade dsh; all actions post to the control plane.
pub open spec fn settings_menu_js_spec(backend_label: Seq<char>) -> Seq<char> {
    SETTINGS_MENU_1@ + control_addr() + SETTINGS_MENU_2@ + backend_label + SETTINGS_MENU_3@
}

/// Builds the settings-menu script around the current compatibility label.
pub fn settings_menu_js(backend_label: &str) -> (r: String)
    ensures
        r@ == settings_menu_js_spec(backend_label@),
{
    String::from_str(SETTINGS_MENU_1).concat("127.0.0.1:45331").concat(SETTINGS_MENU_2).concat(
        backend_label,
    ).concat(SETTINGS_MENU_3)
}

/// The title-bar page with the control plane URL in place of `__BASE__`.
pub open spec fn shellbar_html_spec() -> Seq<char> {
    replace_spec(SHELLBAR_PAGE@, "__BASE__"@, "http://"@ + control_addr())
}

/// Builds the title-bar page.
pub fn shellbar_html() -> (r: String)
    ensures
        r@ == shellbar_html_spec(),
{
    let base = String::from_str("http://").concat("127.0.0.1:45331");
    proof {
        reveal_strlit("__BASE__");
    }
    replace_all(SHELLBAR_PAGE, "__BASE__", base.as_str())
}

} // verus!
